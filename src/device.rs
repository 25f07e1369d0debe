//! The device capability a renderer is set up from, and convenience
//! constructors over it.
use vstd::prelude::*;
use crate::command::{ArrayBufferName, FrameBufferName};
use crate::error::{CreateShaderError, ProgramError};
use crate::mesh::{Attribute, Mesh};
use crate::model::is_fresh;
use crate::renderer::Renderer;
use crate::shade::{connect, connect_failure, connect_ok, BufferName, ParamNames, ProgramHandle};

verus! {

/// A compiled shader stage known to the device.
pub type ShaderName = u32;

/// A programmable pipeline stage.
#[derive(Clone, Copy, Debug, PartialEq, Eq, Structural)]
pub enum Stage {
    Vertex,
    Fragment,
}

/// One call made on a device, with what it returned.
pub ghost enum DeviceCall {
    ArrayBuffer(Option<ArrayBufferName>),
    FrameBuffer(FrameBufferName),
    StaticBuffer(Seq<u8>, BufferName),
    Shader(Stage, Seq<u8>, Result<ShaderName, CreateShaderError>),
    Program(Seq<ShaderName>, Result<ProgramHandle, ()>),
}

/// What a graphics backend offers for setting up rendering. Each call
/// that creates something is recorded, with its result, in `calls`.
pub trait Device {
    /// The creating calls made on this device so far, oldest first.
    spec fn calls(&self) -> Seq<DeviceCall>;

    /// The platform-provided frame buffer.
    spec fn main_frame(&self) -> FrameBufferName;

    /// Creates a vertex array object, where the backend has them.
    fn create_array_buffer(&mut self) -> (r: Option<ArrayBufferName>)
        ensures
            final(self).calls() == old(self).calls().push(DeviceCall::ArrayBuffer(r)),
            final(self).main_frame() == old(self).main_frame(),
    ;

    /// Creates a frame buffer object.
    fn create_frame_buffer(&mut self) -> (r: FrameBufferName)
        ensures
            final(self).calls() == old(self).calls().push(DeviceCall::FrameBuffer(r)),
            final(self).main_frame() == old(self).main_frame(),
    ;

    /// The platform-provided frame buffer.
    fn main_frame_buffer(&self) -> (r: FrameBufferName)
        ensures
            r == self.main_frame(),
    ;

    /// Creates a buffer holding `data`.
    fn create_buffer_static(&mut self, data: &Vec<u8>) -> (r: BufferName)
        ensures
            final(self).calls() == old(self).calls().push(DeviceCall::StaticBuffer(data@, r)),
            final(self).main_frame() == old(self).main_frame(),
    ;

    /// Compiles one shader stage.
    fn create_shader(&mut self, stage: Stage, code: &Vec<u8>) -> (r: Result<ShaderName, CreateShaderError>)
        ensures
            final(self).calls() == old(self).calls().push(DeviceCall::Shader(stage, code@, r)),
            final(self).main_frame() == old(self).main_frame(),
    ;

    /// Links compiled stages into a program.
    fn create_program(&mut self, shaders: &Vec<ShaderName>) -> (r: Result<ProgramHandle, ()>)
        ensures
            final(self).calls() == old(self).calls().push(DeviceCall::Program(shaders@, r)),
            final(self).main_frame() == old(self).main_frame(),
    ;
}

/// The calls `link_program` made, `new`, and its result `r`: compile the
/// vertex stage; if that worked, the fragment stage; if that worked, link
/// the two; if that worked, connect the program's interface to `names`.
/// Each failure stops there and is reported with the device's own error,
/// or with the first declared parameter `names` lacks.
pub open spec fn link_steps(
    new: Seq<DeviceCall>,
    vs: Seq<u8>,
    fs: Seq<u8>,
    names: ParamNames,
    r: Result<ProgramHandle, ProgramError>,
) -> bool {
    new.len() >= 1 && match new[0] {
        DeviceCall::Shader(Stage::Vertex, code, rv) => code == vs && match rv {
            Err(e) => new.len() == 1 && r == Err::<ProgramHandle, ProgramError>(ProgramError::ErrorVertex(e)),
            Ok(v) => new.len() >= 2 && match new[1] {
                DeviceCall::Shader(Stage::Fragment, code2, rf) => code2 == fs && match rf {
                    Err(e) => new.len() == 2 && r == Err::<ProgramHandle, ProgramError>(ProgramError::ErrorFragment(e)),
                    Ok(f) => new.len() == 3 && match new[2] {
                        DeviceCall::Program(shaders, rp) => shaders == seq![v, f] && match rp {
                            Err(_) => r == Err::<ProgramHandle, ProgramError>(ProgramError::ErrorLink),
                            Ok(p) => if connect_ok(p.info, names) {
                                r == Ok::<ProgramHandle, ProgramError>(p)
                            } else {
                                r matches Err(ProgramError::ErrorParameters(pe)) && connect_failure(p.info, names, pe)
                            },
                        },
                        _ => false,
                    },
                },
                _ => false,
            },
        },
        _ => false,
    }
}

/// Convenience constructors over a device.
pub trait DeviceHelper: Device {
    /// A renderer recording for this device, with nothing recorded or
    /// bound, over a new vertex array (where the device has them), a new
    /// frame buffer and the device's main frame buffer.
    fn create_renderer(&mut self) -> (r: Renderer)
        ensures
            is_fresh(r@, r@.common_array_buffer, r@.common_frame_buffer, r@.default_frame_buffer),
            final(self).calls() == old(self).calls().push(DeviceCall::ArrayBuffer(r@.common_array_buffer)).push(
                DeviceCall::FrameBuffer(r@.common_frame_buffer),
            ),
            r@.default_frame_buffer == final(self).main_frame(),
    ;

    /// Uploads `data`, vertices of `vertex_size` bytes each, into a new
    /// buffer and describes it by `format`, whose attributes then all read
    /// from that buffer.
    fn create_mesh(&mut self, data: &Vec<u8>, vertex_size: usize, format: &Vec<Attribute>) -> (r: Mesh)
        requires
            vertex_size > 0,
            data@.len() / (vertex_size as nat) < u32::MAX,
        ensures
            r.num_vertices == data@.len() / (vertex_size as nat),
            r.attributes@.len() == format@.len(),
            final(self).calls().len() == old(self).calls().len() + 1,
            final(self).calls().drop_last() == old(self).calls(),
            final(self).calls().last() matches DeviceCall::StaticBuffer(d, b) && d == data@
                && forall|i: int| 0 <= i < format@.len() ==> #[trigger] r.attributes@[i] == (Attribute {
                buffer: b,
                ..format@[i]
            }),
    ;

    /// Compiles `vs_src` and `fs_src`, links them into a program and
    /// checks that `names` supplies every parameter the program declares,
    /// reporting which step failed.
    fn link_program(&mut self, vs_src: &Vec<u8>, fs_src: &Vec<u8>, names: &ParamNames) -> (r: Result<ProgramHandle, ProgramError>)
        ensures
            final(self).calls().len() >= old(self).calls().len(),
            final(self).calls().subrange(0, old(self).calls().len() as int) == old(self).calls(),
            link_steps(final(self).calls().skip(old(self).calls().len() as int), vs_src@, fs_src@, *names, r),
    ;
}

impl<D: Device> DeviceHelper for D {
    fn create_renderer(&mut self) -> (r: Renderer) {
        let common_array_buffer = self.create_array_buffer();
        let common_frame_buffer = self.create_frame_buffer();
        let default_frame_buffer = self.main_frame_buffer();
        Renderer::new(common_array_buffer, common_frame_buffer, default_frame_buffer)
    }

    fn create_mesh(&mut self, data: &Vec<u8>, vertex_size: usize, format: &Vec<Attribute>) -> (r: Mesh) {
        let nv = data.len() / vertex_size;
        let buf = self.create_buffer_static(data);
        assert(self.calls().drop_last() =~= old(self).calls());
        let mut attributes: Vec<Attribute> = Vec::new();
        let mut i: usize = 0;
        while i < format.len()
            invariant
                i <= format@.len(),
                attributes@.len() == i,
                forall|j: int| 0 <= j < i ==> #[trigger] attributes@[j] == (Attribute {
                    buffer: buf,
                    ..format@[j]
                }),
            decreases format@.len() - i,
        {
            let a = &format[i];
            attributes.push(
                Attribute {
                    name: a.name.clone(),
                    buffer: buf,
                    elem_count: a.elem_count,
                    elem_type: a.elem_type,
                    stride: a.stride,
                    offset: a.offset,
                },
            );
            i = i + 1;
        }
        Mesh { num_vertices: nv as u32, attributes }
    }

    fn link_program(&mut self, vs_src: &Vec<u8>, fs_src: &Vec<u8>, names: &ParamNames) -> (r: Result<ProgramHandle, ProgramError>) {
        let ghost c0 = self.calls();
        let rv = self.create_shader(Stage::Vertex, vs_src);
        let ghost c1 = self.calls();
        assert(c1.subrange(0, c0.len() as int) =~= c0);
        let vs = match rv {
            Ok(s) => s,
            Err(e) => {
                assert(c1.skip(c0.len() as int) =~= seq![DeviceCall::Shader(Stage::Vertex, vs_src@, rv)]);
                return Err(ProgramError::ErrorVertex(e));
            },
        };
        let rf = self.create_shader(Stage::Fragment, fs_src);
        let ghost c2 = self.calls();
        assert(c2.subrange(0, c0.len() as int) =~= c0);
        let fs = match rf {
            Ok(s) => s,
            Err(e) => {
                assert(c2.skip(c0.len() as int) =~= seq![
                    DeviceCall::Shader(Stage::Vertex, vs_src@, rv),
                    DeviceCall::Shader(Stage::Fragment, fs_src@, rf),
                ]);
                return Err(ProgramError::ErrorFragment(e));
            },
        };
        let shaders = vec![vs, fs];
        assert(shaders@ =~= seq![vs, fs]);
        let rp = self.create_program(&shaders);
        let ghost c3 = self.calls();
        assert(c3.subrange(0, c0.len() as int) =~= c0);
        assert(c3.skip(c0.len() as int) =~= seq![
            DeviceCall::Shader(Stage::Vertex, vs_src@, rv),
            DeviceCall::Shader(Stage::Fragment, fs_src@, rf),
            DeviceCall::Program(shaders@, rp),
        ]);
        match rp {
            Ok(p) => match connect(&p.info, names) {
                Ok(_) => Ok(p),
                Err(e) => Err(ProgramError::ErrorParameters(e)),
            },
            Err(_) => Err(ProgramError::ErrorLink),
        }
    }
}

} // verus!
