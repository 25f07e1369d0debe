//! The renderer: records validated commands for draw requests.
use vstd::prelude::*;
use crate::command::{ArrayBufferName, Command, FrameBufferName};
use crate::command::ClearData;
use crate::error::{DrawError, MeshError, ParameterError};
use crate::mesh::{IndexType, Mesh, Slice};
use crate::shade::{BufferHandle, ImageInfo, ProgramInfo, TextureHandle};
use crate::state::DrawState;
use crate::model::{
    after_bind_frame, after_draw, is_fresh, attr_cmds, attr_ok, attr_prefix, block_cmds, draw_failure,
    draw_ok, lemma_attr_prefix_bound, lemma_attr_prefix_stable, mesh_cmds, mesh_failure, mesh_ok,
    slice_cmds, state_cmds, block_prefix, color_diff_cmds, frame_cmds,
    lemma_present_prefix_bound, lemma_present_prefix_stable, present_prefix, program_cmds,
    program_failure, program_ok, target_cmd, texture_cmds, texture_pair,
    uniform_cmds, uniform_prefix, RendererView,
};
use crate::shade::{slot, ParamValues, ProgramHandle, UniformValue};
use crate::target::{Frame, Plane, Rect, Target, MAX_COLOR_TARGETS};

verus! {

/// Renderer front-end: a command sequence plus the shadow frame state.
pub struct Renderer {
    buf: Vec<Command>,
    common_array_buffer: Option<ArrayBufferName>,
    common_frame_buffer: FrameBufferName,
    default_frame_buffer: FrameBufferName,
    frame: Frame,
}

impl View for Renderer {
    type V = RendererView;

    closed spec fn view(&self) -> RendererView {
        RendererView {
            commands: self.buf@,
            common_array_buffer: self.common_array_buffer,
            common_frame_buffer: self.common_frame_buffer,
            default_frame_buffer: self.default_frame_buffer,
            frame: self.frame,
        }
    }
}

impl Renderer {
    /// A renderer with an empty command sequence and nothing bound, using
    /// the given shared vertex array (where the device has one), common
    /// frame buffer and default frame buffer.
    pub fn new(
        common_array_buffer: Option<ArrayBufferName>,
        common_frame_buffer: FrameBufferName,
        default_frame_buffer: FrameBufferName,
    ) -> (r: Renderer)
        ensures
            is_fresh(r@, common_array_buffer, common_frame_buffer, default_frame_buffer),
    {
        let r = Renderer {
            buf: Vec::new(),
            common_array_buffer,
            common_frame_buffer,
            default_frame_buffer,
            frame: Frame::new(0, 0),
        };
        assert(r@.commands =~= Seq::<Command>::empty());
        r
    }

    /// Drops all recorded commands so the sequence can be reused; the
    /// shadow frame state and shared resources stay.
    pub fn reset(&mut self)
        ensures
            final(self)@ == (RendererView { commands: Seq::<Command>::empty(), ..old(self)@ }),
    {
        self.buf = Vec::new();
        assert(self@.commands =~= Seq::<Command>::empty());
    }

    /// The recorded command sequence, to be submitted.
    pub fn as_buffer(&self) -> (r: &Vec<Command>)
        ensures
            r@ == self@.commands,
    {
        &self.buf
    }

    /// A renderer sharing this one's resources, with no commands and
    /// nothing bound.
    pub fn clone_empty(&self) -> (r: Renderer)
        ensures
            is_fresh(
                r@,
                self@.common_array_buffer,
                self@.common_frame_buffer,
                self@.default_frame_buffer,
            ),
    {
        Renderer::new(self.common_array_buffer, self.common_frame_buffer, self.default_frame_buffer)
    }

    /// Writes `data`, elements of `elem_size` bytes each, into `buf`
    /// starting at element `offset_elements`.
    pub fn update_buffer_vec(
        &mut self,
        buf: BufferHandle,
        data: Vec<u8>,
        elem_size: usize,
        offset_elements: usize,
    )
        requires
            data@.len() + elem_size * offset_elements <= buf.size,
        ensures
            final(self)@ == (RendererView {
                commands: old(self)@.commands.push(
                    Command::UpdateBuffer(buf.name, data, (elem_size * offset_elements) as usize),
                ),
                ..old(self)@
            }),
    {
        let offset_bytes = elem_size * offset_elements;
        self.buf.push(Command::UpdateBuffer(buf.name, data, offset_bytes));
    }

    /// Writes the bytes of one value at the start of `buf`.
    pub fn update_buffer_struct(&mut self, buf: BufferHandle, data: Vec<u8>)
        requires
            data@.len() <= buf.size,
        ensures
            final(self)@ == (RendererView {
                commands: old(self)@.commands.push(Command::UpdateBuffer(buf.name, data, 0)),
                ..old(self)@
            }),
    {
        self.buf.push(Command::UpdateBuffer(buf.name, data, 0));
    }

    /// Writes `data` into the region `img` of `tex`.
    pub fn update_texture(&mut self, tex: TextureHandle, img: ImageInfo, data: Vec<u8>)
        requires
            tex.info.contains_spec(&img),
        ensures
            final(self)@ == (RendererView {
                commands: old(self)@.commands.push(
                    Command::UpdateTexture(tex.info.kind, tex.name, img, data),
                ),
                ..old(self)@
            }),
    {
        self.buf.push(Command::UpdateTexture(tex.info.kind, tex.name, img, data));
    }

    fn bind_target(buf: &mut Vec<Command>, to: Target, plane: Plane)
        ensures
            final(buf)@ == old(buf)@.push(target_cmd(to, plane)),
    {
        match plane {
            Plane::PlaneEmpty => buf.push(Command::UnbindTarget(to)),
            Plane::PlaneSurface(s) => buf.push(Command::BindTargetSurface(to, s)),
            Plane::PlaneTexture(t, level, layer) => buf.push(
                Command::BindTargetTexture(to, t, level, layer),
            ),
        }
    }

    /// Sets the viewport to `frame` and makes the bound target match it,
    /// emitting attachment commands only for slots that differ from the
    /// shadow frame state.
    pub fn bind_frame(&mut self, frame: &Frame)
        ensures
            final(self)@ == after_bind_frame(old(self)@, *frame),
    {
        self.buf.push(Command::SetViewport(Rect { x: 0, y: 0, w: frame.width, h: frame.height }));
        if frame.is_default() {
            self.buf.push(Command::BindFrameBuffer(self.default_frame_buffer));
        } else {
            self.buf.push(Command::BindFrameBuffer(self.common_frame_buffer));
            let ghost start = self.buf@;
            let mut i: usize = 0;
            while i < MAX_COLOR_TARGETS
                invariant
                    i <= MAX_COLOR_TARGETS,
                    self.buf@ == start + color_diff_cmds(self.frame.colors@, frame.colors@, i as nat),
                    self.frame == old(self).frame,
                    self.common_array_buffer == old(self).common_array_buffer,
                    self.common_frame_buffer == old(self).common_frame_buffer,
                    self.default_frame_buffer == old(self).default_frame_buffer,
                decreases MAX_COLOR_TARGETS - i,
            {
                if self.frame.colors[i] != frame.colors[i] {
                    Renderer::bind_target(&mut self.buf, Target::TargetColor(i as u8), frame.colors[i]);
                }
                proof {
                    assert(color_diff_cmds(self.frame.colors@, frame.colors@, (i + 1) as nat)
                        =~= color_diff_cmds(self.frame.colors@, frame.colors@, i as nat)
                        + (if self.frame.colors@[i as int] != frame.colors@[i as int] {
                            seq![target_cmd(Target::TargetColor(i as u8), frame.colors@[i as int])]
                        } else {
                            seq![]
                        }));
                }
                i = i + 1;
            }
            if self.frame.depth != frame.depth {
                Renderer::bind_target(&mut self.buf, Target::TargetDepth, frame.depth);
            }
            if self.frame.stencil != frame.stencil {
                Renderer::bind_target(&mut self.buf, Target::TargetStencil, frame.stencil);
            }
            self.frame = *frame;
        }
        proof {
            assert(self@.commands =~= old(self)@.commands + frame_cmds(old(self)@, *frame));
        }
    }

    /// Binds `prog`, then each declared uniform, block and texture in
    /// declaration order, failing at the first one without a value.
    pub fn bind_program(&mut self, prog: &ProgramHandle, params: &ParamValues) -> (r: Result<(), ParameterError>)
        ensures
            final(self)@ == (RendererView {
                commands: old(self)@.commands + program_cmds(*prog, *params),
                ..old(self)@
            }),
            r is Ok <==> program_ok(*prog, *params),
            r matches Err(e) ==> program_failure(*prog, *params, e),
    {
        let ghost old_view = self@;
        let ghost uvals = params.uniforms@;
        let ghost bvals = params.blocks@;
        let ghost tvals = params.textures@;
        let ghost nu = prog.info.uniforms@.len();
        let ghost nb = prog.info.blocks@.len();
        let ghost nt = prog.info.textures@.len();
        proof {
            lemma_present_prefix_bound(uvals, nu);
            lemma_present_prefix_bound(bvals, nb);
            lemma_present_prefix_bound(tvals, nt);
        }
        self.buf.push(Command::BindProgram(prog.name));
        let ghost base = self.buf@;
        let mut i: usize = 0;
        while i < prog.info.uniforms.len()
            invariant
                i <= nu,
                nu == prog.info.uniforms@.len(),
                present_prefix(uvals, i as nat) == i,
                self.buf@ == base + uniform_cmds(prog.info.uniforms@, uvals, i as nat),
                base == old_view.commands + seq![Command::BindProgram(prog.name)],
                self@ == (RendererView { commands: self.buf@, ..old_view }),
                old_view == old(self)@,
                uvals == params.uniforms@,
            decreases nu - i,
        {
            let val = if i < params.uniforms.len() {
                params.uniforms[i]
            } else {
                None
            };
            assert(val == slot(uvals, i as int));
            match val {
                Some(v) => {
                    self.buf.push(Command::BindUniform(prog.info.uniforms[i].location, v));
                },
                None => {
                    proof {
                        lemma_present_prefix_stable(uvals, (i + 1) as nat, nu);
                        assert(self@.commands =~= old_view.commands + program_cmds(*prog, *params));
                    }
                    return Err(ParameterError::ErrorParamUniform(prog.info.uniforms[i].name.clone()));
                },
            }
            i = i + 1;
        }
        let ghost base = self.buf@;
        i = 0;
        while i < prog.info.blocks.len()
            invariant
                i <= nb,
                nb == prog.info.blocks@.len(),
                uniform_prefix(*prog, *params) == nu,
                nu == prog.info.uniforms@.len(),
                uvals == params.uniforms@,
                present_prefix(bvals, i as nat) == i,
                self.buf@ == base + block_cmds(prog.name, bvals, i as nat),
                base == old_view.commands + seq![Command::BindProgram(prog.name)] + uniform_cmds(prog.info.uniforms@, uvals, nu),
                self@ == (RendererView { commands: self.buf@, ..old_view }),
                old_view == old(self)@,
                bvals == params.blocks@,
            decreases nb - i,
        {
            let val = if i < params.blocks.len() {
                params.blocks[i]
            } else {
                None
            };
            assert(val == slot(bvals, i as int));
            match val {
                Some(b) => {
                    self.buf.push(Command::BindUniformBlock(prog.name, #[verifier::truncate] (i as u8), #[verifier::truncate] (i as u8), b));
                },
                None => {
                    proof {
                        lemma_present_prefix_stable(bvals, (i + 1) as nat, nb);
                        assert(block_prefix(*prog, *params) == i);
                        assert(program_cmds(*prog, *params) =~= seq![Command::BindProgram(prog.name)]
                            + uniform_cmds(prog.info.uniforms@, uvals, nu) + block_cmds(prog.name, bvals, i as nat));
                        assert(self@.commands =~= old_view.commands + program_cmds(*prog, *params));
                    }
                    return Err(ParameterError::ErrorParamBlock(prog.info.blocks[i].name.clone()));
                },
            }
            i = i + 1;
        }
        let ghost base = self.buf@;
        i = 0;
        while i < prog.info.textures.len()
            invariant
                i <= nt,
                nt == prog.info.textures@.len(),
                uniform_prefix(*prog, *params) == nu,
                nu == prog.info.uniforms@.len(),
                uvals == params.uniforms@,
                block_prefix(*prog, *params) == nb,
                nb == prog.info.blocks@.len(),
                bvals == params.blocks@,
                present_prefix(tvals, i as nat) == i,
                self.buf@ == base + texture_cmds(prog.info.textures@, tvals, i as nat),
                base == old_view.commands + seq![Command::BindProgram(prog.name)] + uniform_cmds(prog.info.uniforms@, uvals, nu)
                    + block_cmds(prog.name, bvals, nb),
                self@ == (RendererView { commands: self.buf@, ..old_view }),
                old_view == old(self)@,
                tvals == params.textures@,
            decreases nt - i,
        {
            let val = if i < params.textures.len() {
                params.textures[i]
            } else {
                None
            };
            assert(val == slot(tvals, i as int));
            match val {
                Some(t) => {
                    self.buf.push(
                        Command::BindUniform(prog.info.textures[i].location, UniformValue::ValueI32(#[verifier::truncate] (i as i32))),
                    );
                    self.buf.push(Command::BindTexture(#[verifier::truncate] (i as u8), t.texture.info.kind, t.texture.name, t.sampler));
                    proof {
                        assert(texture_cmds(prog.info.textures@, tvals, (i + 1) as nat)
                            =~= texture_cmds(prog.info.textures@, tvals, i as nat)
                            + texture_pair(prog.info.textures@[i as int], i as int, t));
                    }
                },
                None => {
                    proof {
                        lemma_present_prefix_stable(tvals, (i + 1) as nat, nt);
                        assert(program_cmds(*prog, *params) =~= seq![Command::BindProgram(prog.name)]
                            + uniform_cmds(prog.info.uniforms@, uvals, nu) + block_cmds(prog.name, bvals, nb)
                            + texture_cmds(prog.info.textures@, tvals, i as nat));
                        assert(self@.commands =~= old_view.commands + program_cmds(*prog, *params));
                    }
                    return Err(ParameterError::ErrorParamTexture(prog.info.textures[i].name.clone()));
                },
            }
            i = i + 1;
        }
        proof {
            assert(self@.commands =~= old_view.commands + program_cmds(*prog, *params));
        }
        Ok(())
    }

    /// Binds the shared vertex array where there is one, then, for each
    /// attribute `info` declares, the mesh attribute of the same name;
    /// fails at the first one that is missing or of an unfit type.
    pub fn bind_mesh(&mut self, mesh: &Mesh, info: &ProgramInfo) -> (r: Result<(), MeshError>)
        ensures
            final(self)@ == (RendererView {
                commands: old(self)@.commands + mesh_cmds(old(self)@, *mesh, info.attributes@),
                ..old(self)@
            }),
            r is Ok <==> mesh_ok(*mesh, info.attributes@),
            r matches Err(e) ==> mesh_failure(*mesh, info.attributes@, e),
    {
        let ghost old_view = self@;
        let ghost vars = info.attributes@;
        let ghost ma = mesh.attributes@;
        proof {
            lemma_attr_prefix_bound(vars, ma, vars.len());
        }
        match self.common_array_buffer {
            Some(ab) => self.buf.push(Command::BindArrayBuffer(ab)),
            None => {},
        }
        let ghost base = self.buf@;
        let mut i: usize = 0;
        while i < info.attributes.len()
            invariant
                i <= vars.len(),
                vars == info.attributes@,
                ma == mesh.attributes@,
                attr_prefix(vars, ma, i as nat) == i,
                self.buf@ == base + attr_cmds(vars, ma, i as nat),
                base == old_view.commands + match old_view.common_array_buffer {
                    Some(ab) => seq![Command::BindArrayBuffer(ab)],
                    None => seq![],
                },
                self@ == (RendererView { commands: self.buf@, ..old_view }),
                old_view == old(self)@,
            decreases vars.len() - i,
        {
            let sat = &info.attributes[i];
            match mesh.find_attribute(&sat.name) {
                Some(k) => {
                    let vat = &mesh.attributes[k];
                    if vat.elem_type.is_compatible(sat.base_type) {
                        self.buf.push(
                            Command::BindAttribute(
                                sat.location,
                                vat.buffer,
                                vat.elem_count,
                                vat.elem_type,
                                vat.stride,
                                vat.offset,
                            ),
                        );
                        assert(attr_ok(ma, vars[i as int]));
                    } else {
                        proof {
                            lemma_attr_prefix_stable(vars, ma, (i + 1) as nat, vars.len());
                            assert(self@.commands =~= old_view.commands + mesh_cmds(old_view, *mesh, vars));
                        }
                        return Err(MeshError::ErrorAttributeType);
                    }
                },
                None => {
                    proof {
                        lemma_attr_prefix_stable(vars, ma, (i + 1) as nat, vars.len());
                        assert(self@.commands =~= old_view.commands + mesh_cmds(old_view, *mesh, vars));
                    }
                    return Err(MeshError::ErrorAttributeMissing(sat.name.clone()));
                },
            }
            i = i + 1;
        }
        proof {
            assert(self@.commands =~= old_view.commands + mesh_cmds(old_view, *mesh, vars));
        }
        Ok(())
    }

    /// Emits the draw command for `slice`, preceded by an index buffer
    /// binding where the slice is indexed.
    pub fn draw_slice(&mut self, slice: Slice)
        ensures
            final(self)@ == (RendererView {
                commands: old(self)@.commands + slice_cmds(slice),
                ..old(self)@
            }),
    {
        match slice {
            Slice::VertexSlice(prim_type, start, end) => {
                self.buf.push(Command::Draw(prim_type, start, end));
            },
            Slice::IndexSlice8(prim_type, buf, start, end) => {
                self.buf.push(Command::BindIndex(buf));
                self.buf.push(Command::DrawIndexed(prim_type, IndexType::U8, start, end));
            },
            Slice::IndexSlice16(prim_type, buf, start, end) => {
                self.buf.push(Command::BindIndex(buf));
                self.buf.push(Command::DrawIndexed(prim_type, IndexType::U16, start, end));
            },
            Slice::IndexSlice32(prim_type, buf, start, end) => {
                self.buf.push(Command::BindIndex(buf));
                self.buf.push(Command::DrawIndexed(prim_type, IndexType::U32, start, end));
            },
        }
        assert(self@.commands =~= old(self)@.commands + slice_cmds(slice));
    }

    /// Draws `slice` of `mesh` into `frame` with `prog`, the values in
    /// `params` and the fixed-function state `state`.
    pub fn draw(
        &mut self,
        mesh: &Mesh,
        slice: Slice,
        frame: &Frame,
        prog: &ProgramHandle,
        params: &ParamValues,
        state: &DrawState,
    ) -> (r: Result<(), DrawError>)
        ensures
            final(self)@ == after_draw(old(self)@, *mesh, slice, *frame, *prog, *params, *state),
            r is Ok <==> draw_ok(*mesh, *prog, *params),
            r matches Err(e) ==> draw_failure(*mesh, *prog, *params, e),
    {
        self.bind_frame(frame);
        match self.bind_program(prog, params) {
            Ok(_) => {},
            Err(e) => return Err(DrawError::ErrorParameter(e)),
        }
        let ghost before_state = self@;
        self.buf.push(Command::SetPrimitive(state.primitive));
        self.buf.push(Command::SetScissor(state.scissor));
        self.buf.push(Command::SetDepthStencil(state.depth, state.stencil, state.primitive.get_cull_mode()));
        self.buf.push(Command::SetBlend(state.blend));
        self.buf.push(Command::SetColorMask(state.color_mask));
        assert(self@.commands =~= before_state.commands + state_cmds(*state));
        match self.bind_mesh(mesh, &prog.info) {
            Ok(_) => {},
            Err(e) => return Err(DrawError::ErrorMesh(e)),
        }
        self.draw_slice(slice);
        Ok(())
    }

    /// Binds `frame`, then clears it as `data` says.
    pub fn clear(&mut self, data: ClearData, frame: &Frame)
        ensures
            final(self)@ == (RendererView {
                commands: after_bind_frame(old(self)@, *frame).commands.push(Command::Clear(data)),
                ..after_bind_frame(old(self)@, *frame)
            }),
    {
        self.bind_frame(frame);
        self.buf.push(Command::Clear(data));
    }
}

} // verus!
