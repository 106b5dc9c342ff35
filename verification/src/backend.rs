//! The interface between the library and a rendering backend.

use crate::resource::Resource;
use crate::vertex::{VertexAttr, VertexStepMode};
use vstd::prelude::*;

verus! {

/// Scale factor of the output surface, carried as the bits of a 64-bit
/// IEEE 754 number.
#[derive(Debug, Clone, Copy, PartialEq, Eq, Structural)]
pub struct DpiScale {
    pub bits: u64,
}

/// A graphics backend: one rendering API, driven through the ids it gives out.
///
/// The methods that a backend has to write carry no contract, so that a
/// backend can be written in plain Rust. What a backend owes its caller is said
/// in words at each method, and rests with the author of the backend.
///
/// A backend is driven from one thread. It never reuses an id of a resource
/// that it holds storage for. Storage is released in `clean` and nowhere else;
/// an id that was handed to `clean` must not be passed to any other method
/// afterwards.
///
/// The records `Limits`, `PipelineOptions`, `Commands`, `TextureInfo`,
/// `TextureUpdate` and `TextureRead` are the backend's own; the library passes
/// them through as they are.
pub trait Backend {
    type Limits: Default;

    type PipelineOptions;

    type Commands;

    type TextureInfo;

    type TextureUpdate;

    type TextureRead;

    /// Returns the name of the API in use.
    fn api_name(&self) -> &str;

    /// Returns the limits of the device. A backend that does not say
    /// otherwise reports what `Default::default` gives for its `Limits`.
    fn limits(&self) -> (limits: Self::Limits)
        default_ensures
            call_ensures(<Self::Limits as Default>::default, (), limits),
    {
        Default::default()
    }

    /// Creates a pipeline from the two shader sources and returns its id. On
    /// an error no pipeline was created.
    fn create_pipeline(
        &mut self,
        vertex_source: &[u8],
        fragment_source: &[u8],
        vertex_attrs: &[VertexAttr],
        options: Self::PipelineOptions,
    ) -> Result<u64, String>;

    /// Creates a vertex buffer and returns its id. On an error no buffer was
    /// created.
    fn create_vertex_buffer(&mut self, attrs: &[VertexAttr], step_mode: VertexStepMode) -> Result<
        u64,
        String,
    >;

    /// Creates an index buffer and returns its id. On an error no buffer was
    /// created.
    fn create_index_buffer(&mut self) -> Result<u64, String>;

    /// Creates a uniform buffer for a slot and returns its id. On an error no
    /// buffer was created.
    fn create_uniform_buffer(&mut self, slot: u32, name: &str) -> Result<u64, String>;

    /// Uploads `data` to a buffer that this backend created.
    fn set_buffer_data(&mut self, buffer: u64, data: &[u8]);

    /// Runs the commands, in the order given, on the render target or, without
    /// one, on the default surface.
    fn render(&mut self, commands: &[Self::Commands], target: Option<u64>);

    /// Releases the storage of the resources in `to_clean`.
    fn clean(&mut self, to_clean: &[Resource]);

    /// Sets the size of the output.
    fn set_size(&mut self, width: i32, height: i32);

    /// Sets the scale factor of the output.
    fn set_dpi(&mut self, scale_factor: DpiScale);

    /// Creates a texture and returns its id. On an error no texture was
    /// created.
    fn create_texture(&mut self, info: &Self::TextureInfo) -> Result<u64, String>;

    /// Creates a render target on a texture and returns its id. On an error no
    /// render target was created.
    fn create_render_texture(&mut self, texture_id: u64, info: &Self::TextureInfo) -> Result<
        u64,
        String,
    >;

    /// Changes the pixels of a texture. On an error the texture is as it was.
    fn update_texture(&mut self, texture: u64, opts: &Self::TextureUpdate) -> Result<(), String>;

    /// Reads pixels of a texture into `bytes`. On an error the texture is as
    /// it was.
    fn read_pixels(&mut self, texture: u64, bytes: &mut [u8], opts: &Self::TextureRead) -> Result<
        (),
        String,
    >;
}

} // verus!
