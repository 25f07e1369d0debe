use gfx::device::{Device, DeviceCall, DeviceHelper, ShaderName, Stage};
use gfx::error::{CreateShaderError, ProgramError};
use gfx::mesh::{AttribType, Attribute, FloatSize, FloatSubType};
use gfx::error::ParameterError;
use gfx::renderer::Renderer;
use gfx::command::Command;
use gfx::shade::{connect, BlockVar, ParamNames, ProgramHandle, ProgramInfo, SamplerVar, UniformVar};
use gfx::target::{Frame, Plane};

struct TestDevice {
    next: u32,
    has_vao: bool,
    bad_stage: Option<Stage>,
    link_fails: bool,
    program_info: ProgramInfo,
}

impl TestDevice {
    fn new() -> TestDevice {
        TestDevice {
            next: 100,
            has_vao: true,
            bad_stage: None,
            link_fails: false,
            program_info: ProgramInfo { uniforms: vec![], blocks: vec![], textures: vec![], attributes: vec![] },
        }
    }
    fn fresh_name(&mut self) -> u32 {
        self.next += 1;
        self.next
    }
}

impl Device for TestDevice {
    fn calls(&self) -> vstd::seq::Seq<DeviceCall> {
        unreachable!()
    }
    fn main_frame(&self) -> u32 {
        unreachable!()
    }
    fn create_array_buffer(&mut self) -> Option<u32> {
        if self.has_vao { Some(self.fresh_name()) } else { None }
    }
    fn create_frame_buffer(&mut self) -> u32 {
        self.fresh_name()
    }
    fn main_frame_buffer(&self) -> u32 {
        0
    }
    fn create_buffer_static(&mut self, _data: &Vec<u8>) -> u32 {
        self.fresh_name()
    }
    fn create_shader(&mut self, stage: Stage, _code: &Vec<u8>) -> Result<ShaderName, CreateShaderError> {
        if self.bad_stage == Some(stage) {
            Err(CreateShaderError::ShaderCompilationFailed)
        } else {
            Ok(self.fresh_name())
        }
    }
    fn create_program(&mut self, _shaders: &Vec<ShaderName>) -> Result<ProgramHandle, ()> {
        if self.link_fails {
            Err(())
        } else {
            let name = self.fresh_name();
            Ok(ProgramHandle { name, info: self.program_info.clone() })
        }
    }
}

fn no_names() -> ParamNames {
    ParamNames { uniforms: vec![], blocks: vec![], textures: vec![] }
}

fn names(u: &[&str], b: &[&str], t: &[&str]) -> ParamNames {
    ParamNames {
        uniforms: u.iter().map(|s| s.to_string()).collect(),
        blocks: b.iter().map(|s| s.to_string()).collect(),
        textures: t.iter().map(|s| s.to_string()).collect(),
    }
}

fn declared() -> ProgramInfo {
    ProgramInfo {
        uniforms: vec![UniformVar { name: "scale".to_string(), location: 0 }],
        blocks: vec![BlockVar { name: "lights".to_string() }],
        textures: vec![SamplerVar { name: "diffuse".to_string(), location: 1 }],
        attributes: vec![],
    }
}

#[test]
fn created_renderer_uses_device_buffers() {
    let mut d = TestDevice::new();
    d.has_vao = false;
    let mut r: Renderer = d.create_renderer();
    r.bind_frame(&Frame::new(1, 1));
    let mut f = Frame::new(1, 1);
    f.depth = Plane::PlaneSurface(2);
    r.bind_frame(&f);
    assert_eq!(r.as_buffer()[1], Command::BindFrameBuffer(0));
    assert_eq!(r.as_buffer()[3], Command::BindFrameBuffer(101));
}

#[test]
fn connect_accepts_supplied_names() {
    assert_eq!(connect(&declared(), &names(&["x", "scale"], &["lights"], &["diffuse"])), Ok(()));
}

#[test]
fn connect_names_first_unsupplied_parameter() {
    assert_eq!(
        connect(&declared(), &names(&[], &[], &["diffuse"])),
        Err(ParameterError::ErrorParamUniform("scale".to_string()))
    );
    assert_eq!(
        connect(&declared(), &names(&["scale"], &[], &[])),
        Err(ParameterError::ErrorParamBlock("lights".to_string()))
    );
    assert_eq!(
        connect(&declared(), &names(&["scale"], &["lights"], &["normal"])),
        Err(ParameterError::ErrorParamTexture("diffuse".to_string()))
    );
}

#[test]
fn link_program_reports_unconnected_parameter() {
    let mut d = TestDevice::new();
    d.program_info = declared();
    assert_eq!(
        d.link_program(&vec![], &vec![], &names(&["scale"], &[], &["diffuse"])),
        Err(ProgramError::ErrorParameters(ParameterError::ErrorParamBlock("lights".to_string())))
    );
    let p = d.link_program(&vec![], &vec![], &names(&["scale"], &["lights"], &["diffuse"])).unwrap();
    assert_eq!(p.info, declared());
}

#[test]
fn created_renderer_starts_empty() {
    let mut d = TestDevice::new();
    let mut r = d.create_renderer();
    assert!(r.as_buffer().is_empty());
    let mut f = Frame::new(2, 2);
    f.colors[0] = Plane::PlaneSurface(1);
    r.bind_frame(&f);
    assert_eq!(r.as_buffer().len(), 3);
}

#[test]
fn created_mesh_reads_from_new_buffer() {
    let mut d = TestDevice::new();
    let format = vec![Attribute {
        name: "pos".to_string(),
        buffer: 0,
        elem_count: 2,
        elem_type: AttribType::Float(FloatSubType::FloatDefault, FloatSize::F32),
        stride: 8,
        offset: 0,
    }];
    let mesh = d.create_mesh(&vec![0u8; 24], 8, &format);
    assert_eq!(mesh.num_vertices, 3);
    assert_eq!(mesh.attributes.len(), 1);
    assert_eq!(mesh.attributes[0].buffer, 101);
    assert_eq!(mesh.attributes[0].name, "pos");
}

#[test]
fn link_program_reports_failing_step() {
    let mut d = TestDevice::new();
    d.bad_stage = Some(Stage::Vertex);
    assert_eq!(
        d.link_program(&vec![], &vec![], &no_names()),
        Err(ProgramError::ErrorVertex(CreateShaderError::ShaderCompilationFailed))
    );
    d.bad_stage = Some(Stage::Fragment);
    assert_eq!(
        d.link_program(&vec![], &vec![], &no_names()),
        Err(ProgramError::ErrorFragment(CreateShaderError::ShaderCompilationFailed))
    );
    d.bad_stage = None;
    d.link_fails = true;
    assert_eq!(d.link_program(&vec![], &vec![], &no_names()), Err(ProgramError::ErrorLink));
    d.link_fails = false;
    assert!(d.link_program(&vec![], &vec![], &no_names()).is_ok());
}
