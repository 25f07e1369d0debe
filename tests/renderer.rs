use gfx::command::{ClearData, Command};
use gfx::error::{DrawError, MeshError, ParameterError};
use gfx::mesh::{
    AttribType, Attribute, FloatSize, FloatSubType, IndexType, IntSize, IntSubType, Mesh,
    PrimitiveType, SignFlag, Slice,
};
use gfx::renderer::Renderer;
use gfx::shade::{
    AttributeVar, BaseType, BlockVar, BufferHandle, ImageInfo, ParamValues, ProgramHandle,
    ProgramInfo, SamplerVar, TextureHandle, TextureInfo, TextureKind, TextureParam, UniformValue,
    UniformVar,
};
use gfx::state::{CullMode, DrawState, RasterMethod};
use gfx::target::{Frame, Plane, Rect, Target};

fn renderer() -> Renderer {
    Renderer::new(Some(7), 3, 0)
}

fn float_attr(name: &str, buffer: u32) -> Attribute {
    Attribute {
        name: name.to_string(),
        buffer,
        elem_count: 3,
        elem_type: AttribType::Float(FloatSubType::FloatDefault, FloatSize::F32),
        stride: 12,
        offset: 0,
    }
}

fn attr_var(name: &str, location: u8) -> AttributeVar {
    AttributeVar { name: name.to_string(), location, base_type: BaseType::BaseF32 }
}

fn program(uniforms: Vec<UniformVar>, attributes: Vec<AttributeVar>) -> ProgramHandle {
    ProgramHandle {
        name: 11,
        info: ProgramInfo { uniforms, blocks: vec![], textures: vec![], attributes },
    }
}

fn uniform(name: &str, location: u32) -> UniformVar {
    UniformVar { name: name.to_string(), location }
}

fn count(cmds: &[Command], f: fn(&Command) -> bool) -> usize {
    cmds.iter().filter(|c| f(c)).count()
}

fn is_attachment(c: &Command) -> bool {
    matches!(
        c,
        Command::UnbindTarget(_) | Command::BindTargetSurface(..) | Command::BindTargetTexture(..)
    )
}

#[test]
fn single_slot_change_rebinds_only_that_slot() {
    let mut r = renderer();
    let mut f1 = Frame::new(64, 32);
    f1.colors[0] = Plane::PlaneSurface(5);
    f1.depth = Plane::PlaneSurface(6);
    let mut f2 = f1;
    f2.colors[1] = Plane::PlaneTexture(9, 2, 1);
    r.bind_frame(&f1);
    let before = r.as_buffer().len();
    r.bind_frame(&f2);
    let added = &r.as_buffer()[before..];
    assert_eq!(
        added,
        &[
            Command::SetViewport(Rect { x: 0, y: 0, w: 64, h: 32 }),
            Command::BindFrameBuffer(3),
            Command::BindTargetTexture(Target::TargetColor(1), 9, 2, 1),
        ]
    );
}

#[test]
fn unchanged_frame_emits_no_attachment_commands() {
    let mut r = renderer();
    let mut f = Frame::new(8, 8);
    f.stencil = Plane::PlaneSurface(4);
    r.bind_frame(&f);
    let before = r.as_buffer().len();
    r.bind_frame(&f);
    assert_eq!(count(&r.as_buffer()[before..], is_attachment), 0);
}

#[test]
fn default_frame_keeps_shadow_state() {
    let mut r = renderer();
    let mut f = Frame::new(16, 16);
    f.colors[0] = Plane::PlaneSurface(5);
    r.bind_frame(&f);
    let before = r.as_buffer().len();
    r.bind_frame(&Frame::new(100, 50));
    assert_eq!(
        &r.as_buffer()[before..],
        &[Command::SetViewport(Rect { x: 0, y: 0, w: 100, h: 50 }), Command::BindFrameBuffer(0)]
    );
    let before = r.as_buffer().len();
    r.bind_frame(&f);
    assert_eq!(count(&r.as_buffer()[before..], is_attachment), 0);
}

#[test]
fn missing_first_uniform_is_named() {
    let mut r = renderer();
    let mut prog = program(vec![uniform("A", 0), uniform("B", 1)], vec![]);
    prog.info.blocks.push(BlockVar { name: "blk".to_string() });
    let mut params = ParamValues::new(&prog.info);
    params.uniforms[1] = Some(UniformValue::ValueI32(3));
    let res = r.bind_program(&prog, &params);
    assert_eq!(res, Err(ParameterError::ErrorParamUniform("A".to_string())));
    assert_eq!(r.as_buffer(), &vec![Command::BindProgram(11)]);
}

#[test]
fn missing_block_is_named() {
    let mut r = renderer();
    let mut prog = program(vec![uniform("A", 0)], vec![]);
    prog.info.blocks.push(BlockVar { name: "first".to_string() });
    prog.info.blocks.push(BlockVar { name: "second".to_string() });
    let mut params = ParamValues::new(&prog.info);
    params.uniforms[0] = Some(UniformValue::ValueU32(8));
    params.blocks[0] = Some(40);
    let res = r.bind_program(&prog, &params);
    assert_eq!(res, Err(ParameterError::ErrorParamBlock("second".to_string())));
    assert_eq!(
        r.as_buffer(),
        &vec![
            Command::BindProgram(11),
            Command::BindUniform(0, UniformValue::ValueU32(8)),
            Command::BindUniformBlock(11, 0, 0, 40),
        ]
    );
}

#[test]
fn textures_bind_to_their_position() {
    let mut r = renderer();
    let mut prog = program(vec![], vec![]);
    prog.info.textures.push(SamplerVar { name: "diffuse".to_string(), location: 4 });
    prog.info.textures.push(SamplerVar { name: "normal".to_string(), location: 5 });
    let tex = TextureHandle {
        name: 21,
        info: TextureInfo { width: 4, height: 4, depth: 1, levels: 1, kind: TextureKind::Texture2D },
    };
    let mut params = ParamValues::new(&prog.info);
    params.textures[0] = Some(TextureParam { texture: tex, sampler: 2 });
    params.textures[1] = Some(TextureParam { texture: tex, sampler: 3 });
    assert_eq!(r.bind_program(&prog, &params), Ok(()));
    assert_eq!(
        r.as_buffer(),
        &vec![
            Command::BindProgram(11),
            Command::BindUniform(4, UniformValue::ValueI32(0)),
            Command::BindTexture(0, TextureKind::Texture2D, 21, 2),
            Command::BindUniform(5, UniformValue::ValueI32(1)),
            Command::BindTexture(1, TextureKind::Texture2D, 21, 3),
        ]
    );
}

#[test]
fn missing_texture_is_named() {
    let mut r = renderer();
    let mut prog = program(vec![], vec![]);
    prog.info.textures.push(SamplerVar { name: "diffuse".to_string(), location: 4 });
    let params = ParamValues::new(&prog.info);
    assert_eq!(
        r.bind_program(&prog, &params),
        Err(ParameterError::ErrorParamTexture("diffuse".to_string()))
    );
}

#[test]
fn simple_draw_emits_expected_commands() {
    let mut r = Renderer::new(None, 3, 0);
    let prog = program(vec![uniform("scale", 2)], vec![attr_var("position", 0), attr_var("color", 1)]);
    let mut params = ParamValues::new(&prog.info);
    params.uniforms[0] = Some(UniformValue::ValueI32(2));
    let mesh = Mesh {
        num_vertices: 3,
        attributes: vec![float_attr("color", 30), float_attr("extra", 31), float_attr("position", 32)],
    };
    let slice = Slice::VertexSlice(PrimitiveType::TriangleList, 0, 3);
    let state = DrawState::new();
    let res = r.draw(&mesh, slice, &Frame::new(10, 10), &prog, &params, &state);
    assert_eq!(res, Ok(()));
    let cmds = r.as_buffer().clone();
    assert_eq!(count(&cmds, |c| matches!(c, Command::SetViewport(_))), 1);
    assert_eq!(count(&cmds, |c| matches!(c, Command::BindProgram(_))), 1);
    assert_eq!(count(&cmds, |c| matches!(c, Command::SetPrimitive(_))), 1);
    assert_eq!(count(&cmds, |c| matches!(c, Command::SetScissor(_))), 1);
    assert_eq!(count(&cmds, |c| matches!(c, Command::SetDepthStencil(..))), 1);
    assert_eq!(count(&cmds, |c| matches!(c, Command::SetBlend(_))), 1);
    assert_eq!(count(&cmds, |c| matches!(c, Command::SetColorMask(_))), 1);
    assert_eq!(count(&cmds, |c| matches!(c, Command::BindAttribute(..))), 2);
    assert_eq!(count(&cmds, |c| matches!(c, Command::Draw(..) | Command::DrawIndexed(..))), 1);
    let float = AttribType::Float(FloatSubType::FloatDefault, FloatSize::F32);
    assert_eq!(
        &cmds[cmds.len() - 3..],
        &[
            Command::BindAttribute(0, 32, 3, float, 12, 0),
            Command::BindAttribute(1, 30, 3, float, 12, 0),
            Command::Draw(PrimitiveType::TriangleList, 0, 3),
        ]
    );
    assert_eq!(
        cmds[6],
        Command::SetDepthStencil(None, None, CullMode::CullNothing)
    );
}

#[test]
fn missing_position_attribute_fails() {
    let mut r = renderer();
    let prog = program(vec![], vec![attr_var("normal", 0), attr_var("position", 1), attr_var("uv", 2)]);
    let info = prog.info.clone();
    let mesh = Mesh { num_vertices: 3, attributes: vec![float_attr("normal", 1), float_attr("uv", 2)] };
    let res = r.bind_mesh(&mesh, &info);
    assert_eq!(res, Err(MeshError::ErrorAttributeMissing("position".to_string())));
    let float = AttribType::Float(FloatSubType::FloatDefault, FloatSize::F32);
    assert_eq!(
        r.as_buffer(),
        &vec![Command::BindArrayBuffer(7), Command::BindAttribute(0, 1, 3, float, 12, 0)]
    );
}

#[test]
fn draw_reports_mesh_error() {
    let mut r = renderer();
    let prog = program(vec![], vec![AttributeVar { name: "id".to_string(), location: 0, base_type: BaseType::BaseI32 }]);
    let params = ParamValues::new(&prog.info);
    let mesh = Mesh { num_vertices: 3, attributes: vec![float_attr("id", 1)] };
    let slice = Slice::VertexSlice(PrimitiveType::Point, 0, 3);
    let res = r.draw(&mesh, slice, &Frame::new(1, 1), &prog, &params, &DrawState::new());
    assert_eq!(res, Err(DrawError::ErrorMesh(MeshError::ErrorAttributeType)));
    assert!(!r.as_buffer().iter().any(|c| matches!(c, Command::Draw(..))));
}

#[test]
fn draw_reports_parameter_error() {
    let mut r = renderer();
    let prog = program(vec![uniform("A", 0)], vec![]);
    let params = ParamValues::new(&prog.info);
    let mesh = Mesh { num_vertices: 0, attributes: vec![] };
    let slice = Slice::VertexSlice(PrimitiveType::Point, 0, 0);
    let res = r.draw(&mesh, slice, &Frame::new(1, 1), &prog, &params, &DrawState::new());
    assert_eq!(res, Err(DrawError::ErrorParameter(ParameterError::ErrorParamUniform("A".to_string()))));
    assert_eq!(r.as_buffer().len(), 3);
}

#[test]
fn index16_slice_binds_index_then_draws() {
    let mut r = renderer();
    r.draw_slice(Slice::IndexSlice16(PrimitiveType::TriangleStrip, 44, 2, 8));
    assert_eq!(
        r.as_buffer(),
        &vec![
            Command::BindIndex(44),
            Command::DrawIndexed(PrimitiveType::TriangleStrip, IndexType::U16, 2, 8),
        ]
    );
}

#[test]
fn vertex_slice_binds_no_index() {
    let mut r = renderer();
    r.draw_slice(Slice::VertexSlice(PrimitiveType::Line, 1, 5));
    assert_eq!(r.as_buffer(), &vec![Command::Draw(PrimitiveType::Line, 1, 5)]);
}

#[test]
fn index8_and_index32_slices_carry_width() {
    let mut r = renderer();
    r.draw_slice(Slice::IndexSlice8(PrimitiveType::Point, 1, 0, 1));
    r.draw_slice(Slice::IndexSlice32(PrimitiveType::Point, 2, 0, 1));
    assert_eq!(r.as_buffer()[1], Command::DrawIndexed(PrimitiveType::Point, IndexType::U8, 0, 1));
    assert_eq!(r.as_buffer()[3], Command::DrawIndexed(PrimitiveType::Point, IndexType::U32, 0, 1));
}

#[test]
fn clone_empty_forgets_commands_and_shadow() {
    let mut r = renderer();
    let mut f = Frame::new(20, 20);
    f.colors[0] = Plane::PlaneSurface(5);
    f.colors[2] = Plane::PlaneTexture(6, 0, 0);
    f.depth = Plane::PlaneSurface(7);
    r.bind_frame(&f);
    r.clear(ClearData { color: Some(0), depth: None, stencil: None }, &f);
    let mut c = r.clone_empty();
    assert!(c.as_buffer().is_empty());
    c.bind_frame(&f);
    assert_eq!(
        c.as_buffer(),
        &vec![
            Command::SetViewport(Rect { x: 0, y: 0, w: 20, h: 20 }),
            Command::BindFrameBuffer(3),
            Command::BindTargetSurface(Target::TargetColor(0), 5),
            Command::BindTargetTexture(Target::TargetColor(2), 6, 0, 0),
            Command::BindTargetSurface(Target::TargetDepth, 7),
        ]
    );
}

#[test]
fn reset_then_draw_matches_fresh_renderer() {
    let mut r = renderer();
    let frame = Frame::new(4, 4);
    let data = ClearData { color: Some(0xff00ff00), depth: Some(1), stencil: Some(0) };
    r.clear(data, &frame);
    r.reset();
    assert!(r.as_buffer().is_empty());
    let mut fresh = renderer();
    let prog = program(vec![], vec![]);
    let params = ParamValues::new(&prog.info);
    let mesh = Mesh { num_vertices: 0, attributes: vec![] };
    let slice = Slice::VertexSlice(PrimitiveType::Point, 0, 0);
    for target in [&mut r, &mut fresh] {
        target.clear(data, &frame);
        let _ = target.draw(&mesh, slice, &frame, &prog, &params, &DrawState::new());
    }
    assert_eq!(r.as_buffer(), fresh.as_buffer());
}

#[test]
fn clear_binds_frame_then_clears() {
    let mut r = renderer();
    let data = ClearData { color: None, depth: None, stencil: Some(1) };
    r.clear(data, &Frame::new(2, 3));
    assert_eq!(
        r.as_buffer(),
        &vec![
            Command::SetViewport(Rect { x: 0, y: 0, w: 2, h: 3 }),
            Command::BindFrameBuffer(0),
            Command::Clear(data),
        ]
    );
}

#[test]
fn buffer_updates_carry_offsets() {
    let mut r = renderer();
    let buf = BufferHandle { name: 5, size: 64 };
    r.update_buffer_vec(buf, vec![1, 2, 3, 4], 4, 3);
    r.update_buffer_struct(buf, vec![9; 16]);
    assert_eq!(
        r.as_buffer(),
        &vec![Command::UpdateBuffer(5, vec![1, 2, 3, 4], 12), Command::UpdateBuffer(5, vec![9; 16], 0)]
    );
}

#[test]
fn texture_update_and_region_check() {
    let mut r = renderer();
    let info = TextureInfo { width: 8, height: 8, depth: 1, levels: 2, kind: TextureKind::Texture2D };
    let tex = TextureHandle { name: 3, info };
    let img = ImageInfo { xoffset: 4, yoffset: 0, zoffset: 0, width: 4, height: 8, depth: 1, mipmap: 1 };
    assert!(info.contains(&img));
    assert!(!info.contains(&ImageInfo { xoffset: 5, ..img }));
    assert!(!info.contains(&ImageInfo { mipmap: 2, ..img }));
    r.update_texture(tex, img, vec![0; 4]);
    assert_eq!(r.as_buffer(), &vec![Command::UpdateTexture(TextureKind::Texture2D, 3, img, vec![0; 4])]);
}

#[test]
fn attribute_type_compatibility() {
    let raw_u = AttribType::Int(IntSubType::IntRaw, IntSize::U8, SignFlag::Unsigned);
    let raw_s = AttribType::Int(IntSubType::IntRaw, IntSize::U16, SignFlag::Signed);
    let norm = AttribType::Int(IntSubType::IntNormalized, IntSize::U8, SignFlag::Unsigned);
    let f64p = AttribType::Float(FloatSubType::FloatPrecision, FloatSize::F64);
    let f32d = AttribType::Float(FloatSubType::FloatDefault, FloatSize::F32);
    assert!(raw_u.is_compatible(BaseType::BaseU32));
    assert!(raw_s.is_compatible(BaseType::BaseI32));
    assert!(!raw_s.is_compatible(BaseType::BaseU32));
    assert!(!raw_u.is_compatible(BaseType::BaseF32));
    assert!(norm.is_compatible(BaseType::BaseF32));
    assert!(f64p.is_compatible(BaseType::BaseF64));
    assert!(!f32d.is_compatible(BaseType::BaseF64));
    assert!(!f32d.is_compatible(BaseType::BaseBool));
}

#[test]
fn cull_mode_only_for_filled_faces() {
    let mut st = DrawState::new();
    st.primitive.method = RasterMethod::Fill(CullMode::CullBack);
    assert_eq!(st.primitive.get_cull_mode(), CullMode::CullBack);
    st.primitive.method = RasterMethod::Line(2);
    assert_eq!(st.primitive.get_cull_mode(), CullMode::CullNothing);
}

#[test]
fn find_attribute_returns_first_match() {
    let mesh = Mesh { num_vertices: 1, attributes: vec![float_attr("a", 1), float_attr("b", 2), float_attr("b", 3)] };
    assert_eq!(mesh.find_attribute(&"b".to_string()), Some(1));
    assert_eq!(mesh.find_attribute(&"c".to_string()), None);
}

#[test]
fn default_frame_detection() {
    let mut f = Frame::new(3, 3);
    assert!(f.is_default());
    f.colors[3] = Plane::PlaneSurface(1);
    assert!(!f.is_default());
}
