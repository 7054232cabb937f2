//! Loading images

use crate::color::ColorState;
use crate::sandbox::SandboxMechanism;
use crate::utils;
use crate::utils::{BinaryData, MemoryFormat, MemoryFormatSelection, MimeType};
use gufo_common::cicp::Cicp;
use std::collections::BTreeMap;
use std::sync::Arc;
use vstd::prelude::*;

verus! {

/// Where the data of an image come from
pub enum Source<F, S> {
    File(F),
    Stream(S),
}

impl<F, S> Source<F, S> {
    /// The file, if the data come from one
    pub fn file(&self) -> (r: Option<&F>)
        ensures
            match (r, *self) {
                (Some(file), Source::File(stored)) => *file == stored,
                (None, Source::Stream(_)) => true,
                _ => false,
            },
    {
        match self {
            Source::File(file) => Some(file),
            Source::Stream(_) => None,
        }
    }
}

/// How the sandbox mechanism is selected
#[derive(Clone, Copy, Debug, PartialEq, Eq, Structural)]
pub enum SandboxSelector {
    /// Whatever fits the environment
    Auto,
    /// Always the same one
    Mechanism(SandboxMechanism),
}

impl Default for SandboxSelector {
    fn default() -> (r: Self)
        ensures
            r == SandboxSelector::Auto,
    {
        SandboxSelector::Auto
    }
}

/// Image request builder
///
/// The data come from a file `F` or a stream `S`, the processes from a pool
/// `P`, and operations can be canceled through a `C`.
pub struct Loader<F, S, P, C> {
    pub source: Source<F, S>,
    pub pool: P,
    pub cancellable: C,
    pub use_expose_base_dir: bool,
    pub apply_transformations: bool,
    pub sandbox_selector: SandboxSelector,
    pub memory_format_selection: MemoryFormatSelection,
}

impl<F, S, P, C> Loader<F, S, P, C> {
    /// Whether no option has been set: transformations are applied, the
    /// sandbox mechanism is selected automatically, the directory of the file
    /// is not exposed and every memory format is accepted
    pub open spec fn has_default_options(self) -> bool {
        &&& self.apply_transformations
        &&& self.sandbox_selector == SandboxSelector::Auto
        &&& !self.use_expose_base_dir
        &&& forall|format: MemoryFormat| #[trigger]
            self.memory_format_selection@.contains(format)
    }

    /// Create a loader with a file as source
    pub fn new(file: F, pool: P, cancellable: C) -> (r: Self)
        ensures
            r.source == Source::<F, S>::File(file),
            r.pool == pool,
            r.cancellable == cancellable,
            r.has_default_options(),
            r.apply_transformations,
            r.sandbox_selector == SandboxSelector::Auto,
            !r.use_expose_base_dir,
            forall|format: MemoryFormat| #[trigger] r.memory_format_selection@.contains(format),
    {
        Self::new_source(Source::File(file), pool, cancellable)
    }

    /// Create a loader with a stream as source
    pub fn new_stream(stream: S, pool: P, cancellable: C) -> (r: Self)
        ensures
            r.source == Source::<F, S>::Stream(stream),
            r.pool == pool,
            r.cancellable == cancellable,
            r.has_default_options(),
            r.apply_transformations,
            r.sandbox_selector == SandboxSelector::Auto,
            !r.use_expose_base_dir,
            forall|format: MemoryFormat| #[trigger] r.memory_format_selection@.contains(format),
    {
        Self::new_source(Source::Stream(stream), pool, cancellable)
    }

    /// Create a loader for a source
    pub fn new_source(source: Source<F, S>, pool: P, cancellable: C) -> (r: Self)
        ensures
            r.source == source,
            r.pool == pool,
            r.cancellable == cancellable,
            r.has_default_options(),
            r.apply_transformations,
            r.sandbox_selector == SandboxSelector::Auto,
            !r.use_expose_base_dir,
            forall|format: MemoryFormat| #[trigger] r.memory_format_selection@.contains(format),
    {
        Loader {
            source,
            pool,
            cancellable,
            apply_transformations: true,
            use_expose_base_dir: false,
            sandbox_selector: SandboxSelector::default(),
            memory_format_selection: MemoryFormatSelection::all(),
        }
    }

    /// Sets the method by which the sandbox mechanism is selected.
    ///
    /// The default without calling this function is [`SandboxSelector::Auto`].
    pub fn sandbox_selector(&mut self, sandbox_selector: SandboxSelector) -> (r: &mut Self)
        ensures
            *r == (Loader { sandbox_selector, ..*old(self) }),
            *final(self) == *final(r),
    {
        self.sandbox_selector = sandbox_selector;
        self
    }

    /// Set what cancels any loader operations
    pub fn cancellable(&mut self, cancellable: C) -> (r: &mut Self)
        ensures
            *r == (Loader { cancellable, ..*old(self) }),
            *final(self) == *final(r),
    {
        self.cancellable = cancellable;
        self
    }

    /// Set whether to apply transformations to texture
    ///
    /// When enabled, transformations like image orientation are applied to the
    /// texture data.
    ///
    /// This option is enabled by default.
    pub fn apply_transformations(&mut self, apply_transformations: bool) -> (r: &mut Self)
        ensures
            *r == (Loader { apply_transformations, ..*old(self) }),
            *final(self) == *final(r),
    {
        self.apply_transformations = apply_transformations;
        self
    }

    /// Sets which memory formats can be returned by the loader
    ///
    /// If the memory format doesn't match one of the selected formats, the
    /// format will be transformed into the best suitable format selected.
    pub fn accepted_memory_formats(
        &mut self,
        memory_format_selection: MemoryFormatSelection,
    ) -> (r: &mut Self)
        ensures
            *r == (Loader { memory_format_selection, ..*old(self) }),
            *final(self) == *final(r),
    {
        self.memory_format_selection = memory_format_selection;
        self
    }

    /// Sets if the file's directory can be exposed to loaders
    ///
    /// Some loaders have the `use_base_dir` option enabled to load external
    /// files. One example is SVGs which can display external images inside the
    /// picture. By default, `use_expose_base_dir` is set to `false`. You need
    /// to enable it for the `use_base_dir` option to have any effect. The
    /// downside of enabling it is that separate sandboxes are needed for
    /// different base directories, which has a noticable performance impact
    /// when loading many small SVGs from many different directories.
    pub fn use_expose_base_dir(&mut self, use_expose_base_dir: bool) -> (r: &mut Self)
        ensures
            *r == (Loader { use_expose_base_dir, ..*old(self) }),
            *final(self) == *final(r),
    {
        self.use_expose_base_dir = use_expose_base_dir;
        self
    }

    /// First step of loading: go on with a loader process that was spun up
    ///
    /// Returns what the second step needs, and what the image data are read
    /// with.
    pub fn load<H, W, E>(self, process_basics: Result<ProcessBasics<H, W>, E>) -> (r: Result<
        (Loading<F, S, P, C, H>, W),
        LoadError<E>,
    >)
        requires
            process_basics matches Ok(basics) ==> basics.g_file_worker is Some,
        ensures
            match process_basics {
                Ok(basics) => r == Ok::<(Loading<F, S, P, C, H>, W), LoadError<E>>(
                    (
                        Loading {
                            loader: self,
                            process: basics.process,
                            mime_type: basics.mime_type,
                            sandbox_mechanism: basics.sandbox_mechanism,
                        },
                        basics.g_file_worker->0,
                    ),
                ),
                Err(error) => r == Err::<(Loading<F, S, P, C, H>, W), LoadError<E>>(
                    LoadError::NoContext(error),
                ),
            },
    {
        match process_basics {
            Ok(basics) => {
                let g_file_worker = basics.g_file_worker.unwrap();
                Ok(
                    (
                        Loading {
                            loader: self,
                            process: basics.process,
                            mime_type: basics.mime_type,
                            sandbox_mechanism: basics.sandbox_mechanism,
                        },
                        g_file_worker,
                    ),
                )
            },
            Err(error) => Err(LoadError::NoContext(error)),
        }
    }

    /// Returns a list of mime types for which loaders are configured
    ///
    /// There is one loader for each of them.
    pub fn supported_mime_types<L>(image_loader: &Vec<(MimeType, L)>) -> (r: Vec<MimeType>)
        requires
            forall|i: int, j: int|
                0 <= i < j < image_loader@.len() ==> (#[trigger] image_loader@[i]).0@ != (
                #[trigger] image_loader@[j]).0@,
        ensures
            r@ == image_loader@.map_values(|entry: (MimeType, L)| entry.0),
            forall|i: int, j: int|
                0 <= i < j < r@.len() ==> (#[trigger] r@[i])@ != (#[trigger] r@[j])@,
    {
        let mut keys: Vec<MimeType> = Vec::new();
        for i in 0..image_loader.len()
            invariant
                keys@.len() == i,
                forall|j: int| 0 <= j < i ==> keys@[j] == (#[trigger] image_loader@[j]).0,
        {
            keys.push(image_loader[i].0.clone());
        }
        keys
    }

    /// Formats that the default loaders support
    pub const DEFAULT_MIME_TYPES: [&'static str; 23] = [
        "image/jpeg",
        "image/png",
        "image/gif",
        "image/webp",
        "image/tiff",
        "image/x-tga",
        "image/vnd-ms.dds",
        "image/x-dds",
        "image/bmp",
        "image/vnd.microsoft.icon",
        "image/vnd.radiance",
        "image/x-exr",
        "image/x-portable-bitmap",
        "image/x-portable-graymap",
        "image/x-portable-pixmap",
        "image/x-portable-anymap",
        "image/x-qoi",
        "image/qoi",
        "image/avif",
        "image/heif",
        "image/jxl",
        "image/svg+xml",
        "image/svg+xml-compressed",
    ];
}

/// A loader process and what is known about the image before it was started
pub struct ProcessBasics<H, W> {
    pub process: H,
    /// Reads the image data
    pub g_file_worker: Option<W>,
    pub mime_type: MimeType,
    pub sandbox_mechanism: SandboxMechanism,
}

/// What a loader process returns when it has read an image
pub struct RemoteImage {
    /// Address under which frames are requested
    pub frame_request: String,
    pub details: utils::ImageDetails,
}

/// Why an image could not be loaded
pub enum LoadError<E> {
    /// There was no loader process that could say more about it
    NoContext(E),
    /// The loader process can say more about it
    Context(E),
}

/// An image between the two steps of loading it
pub struct Loading<F, S, P, C, H> {
    pub loader: Loader<F, S, P, C>,
    pub process: H,
    pub mime_type: MimeType,
    pub sandbox_mechanism: SandboxMechanism,
}

impl<F, S, P, C, H> Loading<F, S, P, C, H> {
    /// Second step of loading: go on with what the loader process returned
    pub fn finish<E>(self, info: Result<RemoteImage, E>) -> (r: Result<
        Image<F, S, P, C, H>,
        LoadError<E>,
    >)
        ensures
            match (info, r) {
                (Ok(info), Ok(image)) => {
                    &&& image.process == self.process
                    &&& image.frame_request == info.frame_request
                    &&& *image.details == info.details
                    &&& image.loader == self.loader
                    &&& image.mime_type == self.mime_type
                    &&& image.active_sandbox_mechanism == self.sandbox_mechanism
                },
                (Err(error), Err(LoadError::Context(returned))) => returned == error,
                _ => false,
            },
    {
        match info {
            Ok(info) => Ok(
                Image {
                    process: self.process,
                    frame_request: info.frame_request,
                    details: Arc::new(info.details),
                    loader: self.loader,
                    mime_type: self.mime_type,
                    active_sandbox_mechanism: self.sandbox_mechanism,
                },
            ),
            Err(error) => Err(LoadError::Context(error)),
        }
    }
}

/// Image handle containing metadata and allowing frame requests
pub struct Image<F, S, P, C, H> {
    pub loader: Loader<F, S, P, C>,
    pub process: H,
    pub frame_request: String,
    pub details: Arc<utils::ImageDetails>,
    pub mime_type: MimeType,
    pub active_sandbox_mechanism: SandboxMechanism,
}

impl<F, S, P, C, H> Image<F, S, P, C, H> {
    /// Request for the next frame, and the process that it is for
    ///
    /// The process loads texture and information of the next frame. Which frame
    /// that is, and whether there is one, is up to the process.
    /// [`Image::frame_loaded`] takes its reply.
    pub fn next_frame(&self) -> (r: (&H, utils::FrameRequest))
        ensures
            *r.0 == self.process,
            r.1 == (utils::FrameRequest { scale: None, clip: None }),
    {
        (&self.process, utils::FrameRequest::default())
    }

    /// Request for a specific frame, and the process that it is for
    ///
    /// The process loads a specific frame from the file. Loaders can ignore parts of the
    /// instructions in the `FrameRequest`.
    pub fn specific_frame(&self, frame_request: FrameRequest) -> (r: (&H, utils::FrameRequest))
        ensures
            *r.0 == self.process,
            r.1 == frame_request.request,
    {
        (&self.process, frame_request.request)
    }

    /// The frame that the process returned for a request, or its error
    pub fn frame_loaded<E>(&self, reply: Result<Frame, E>) -> (r: Result<Frame, LoadError<E>>)
        ensures
            r == match reply {
                Ok(frame) => Ok(frame),
                Err(error) => Err(LoadError::Context(error)),
            },
    {
        match reply {
            Ok(frame) => Ok(frame),
            Err(error) => Err(LoadError::Context(error)),
        }
    }

    /// Returns already obtained info
    pub fn details(&self) -> (r: ImageDetails)
        ensures
            r.inner == self.details,
    {
        ImageDetails::new(self.details.clone())
    }

    /// Address under which the loader process is asked for frames
    pub fn frame_request_path(&self) -> (r: String)
        ensures
            r == self.frame_request,
    {
        self.frame_request.clone()
    }

    /// Returns detected MIME type of the file
    pub fn mime_type(&self) -> (r: MimeType)
        ensures
            r == self.mime_type,
    {
        self.mime_type.clone()
    }

    /// File the image was loaded from
    ///
    /// Is `None` if the file was loaded from a stream or binary data.
    pub fn file(&self) -> (r: Option<&F>)
        ensures
            match (r, self.loader.source) {
                (Some(file), Source::File(stored)) => *file == stored,
                (None, Source::Stream(_)) => true,
                _ => false,
            },
    {
        self.loader.source.file()
    }

    /// What cancels operations within this image
    pub fn cancellable(&self) -> (r: &C)
        ensures
            *r == self.loader.cancellable,
    {
        &self.loader.cancellable
    }

    /// Active sandbox mechanism
    pub fn active_sandbox_mechanism(&self) -> (r: SandboxMechanism)
        ensures
            r == self.active_sandbox_mechanism,
    {
        self.active_sandbox_mechanism
    }
}

/// Description of an image
pub struct ImageDetails {
    pub inner: Arc<utils::ImageDetails>,
}

impl Clone for ImageDetails {
    fn clone(&self) -> (r: Self)
        ensures
            r == *self,
    {
        ImageDetails { inner: self.inner.clone() }
    }
}

impl ImageDetails {
    pub(crate) fn new(inner: Arc<utils::ImageDetails>) -> (r: Self)
        ensures
            r.inner == inner,
    {
        ImageDetails { inner }
    }

    pub fn width(&self) -> (r: u32)
        ensures
            r == self.inner.width,
    {
        self.inner.width
    }

    pub fn height(&self) -> (r: u32)
        ensures
            r == self.inner.height,
    {
        self.inner.height
    }

    /// Width and height in inch, each as the bit pattern of a 64-bit
    /// floating-point number
    pub fn dimensions_inch(&self) -> (r: Option<(u64, u64)>)
        ensures
            r == self.inner.dimensions_inch,
    {
        self.inner.dimensions_inch
    }

    /// A textual representation of the image format
    pub fn info_format_name(&self) -> (r: Option<&str>)
        ensures
            match (r, self.inner.info_format_name) {
                (Some(text), Some(name)) => text@ == name@,
                (None, None) => true,
                _ => false,
            },
    {
        match &self.inner.info_format_name {
            Some(name) => Some(name.as_str()),
            None => None,
        }
    }

    pub fn info_dimensions_text(&self) -> (r: Option<&str>)
        ensures
            match (r, self.inner.info_dimensions_text) {
                (Some(text), Some(dimensions)) => text@ == dimensions@,
                (None, None) => true,
                _ => false,
            },
    {
        match &self.inner.info_dimensions_text {
            Some(dimensions) => Some(dimensions.as_str()),
            None => None,
        }
    }

    pub fn metadata_exif(&self) -> (r: Option<BinaryData>)
        ensures
            r == self.inner.metadata_exif,
    {
        match &self.inner.metadata_exif {
            Some(data) => Some(data.clone()),
            None => None,
        }
    }

    pub fn metadata_orientation(&self) -> (r: Option<u16>)
        ensures
            r == self.inner.metadata_orientation,
    {
        self.inner.metadata_orientation
    }

    pub fn metadata_xmp(&self) -> (r: Option<BinaryData>)
        ensures
            r == self.inner.metadata_xmp,
    {
        match &self.inner.metadata_xmp {
            Some(data) => Some(data.clone()),
            None => None,
        }
    }

    pub fn metadata_key_value(&self) -> (r: Option<&BTreeMap<String, String>>)
        ensures
            match (r, self.inner.metadata_key_value) {
                (Some(pairs), Some(stored)) => *pairs == stored,
                (None, None) => true,
                _ => false,
            },
    {
        match &self.inner.metadata_key_value {
            Some(pairs) => Some(pairs),
            None => None,
        }
    }

    pub fn transformation_ignore_exif(&self) -> (r: bool)
        ensures
            r == self.inner.transformation_ignore_exif,
    {
        self.inner.transformation_ignore_exif
    }
}

/// A frame of an image often being the complete image
pub struct Frame {
    pub buffer: Arc<Vec<u8>>,
    pub width: u32,
    pub height: u32,
    /// Line stride
    pub stride: u32,
    pub memory_format: MemoryFormat,
    pub delay: Option<std::time::Duration>,
    pub details: Arc<utils::FrameDetails>,
    pub color_state: ColorState,
}

/// What a texture is built from
pub struct TextureParameters<G> {
    pub bytes: Arc<Vec<u8>>,
    pub width: i32,
    pub height: i32,
    pub stride: usize,
    pub format: MemoryFormat,
    pub color_state: G,
}

impl Frame {
    pub fn buf_bytes(&self) -> (r: Arc<Vec<u8>>)
        ensures
            r == self.buffer,
    {
        self.buffer.clone()
    }

    pub fn buf_slice(&self) -> (r: &[u8])
        ensures
            r@ == self.buffer@,
    {
        self.buffer.as_slice()
    }

    /// Width in pixels
    pub fn width(&self) -> (r: u32)
        ensures
            r == self.width,
    {
        self.width
    }

    /// Height in pixels
    pub fn height(&self) -> (r: u32)
        ensures
            r == self.height,
    {
        self.height
    }

    /// Line stride in bytes
    pub fn stride(&self) -> (r: u32)
        ensures
            r == self.stride,
    {
        self.stride
    }

    pub fn memory_format(&self) -> (r: MemoryFormat)
        ensures
            r == self.memory_format,
    {
        self.memory_format
    }

    pub fn color_state(&self) -> (r: &ColorState)
        ensures
            *r == self.color_state,
    {
        &self.color_state
    }

    /// Duration to show frame for animations.
    ///
    /// If the value is not set, the image is not animated.
    pub fn delay(&self) -> (r: Option<std::time::Duration>)
        ensures
            r == self.delay,
    {
        self.delay
    }

    pub fn details(&self) -> (r: FrameDetails)
        ensures
            r.inner == self.details,
    {
        FrameDetails::new(self.details.clone())
    }

    /// What the texture of this frame is built from, given the toolkit's color
    /// state for [`Frame::color_state`], or an error if it does not have one,
    /// and its color state for sRGB
    pub fn texture<G, E>(&self, color_state: Result<G, E>, srgb: G) -> (r: TextureParameters<G>)
        requires
            self.width <= i32::MAX,
            self.height <= i32::MAX,
        ensures
            r.bytes == self.buffer,
            r.width == self.width,
            r.height == self.height,
            r.stride == self.stride,
            r.format == self.memory_format,
            r.color_state == match color_state {
                Ok(supported) => supported,
                Err(_) => srgb,
            },
    {
        TextureParameters {
            bytes: self.buf_bytes(),
            width: self.width() as i32,
            height: self.height() as i32,
            stride: self.stride() as usize,
            format: self.memory_format(),
            color_state: match color_state {
                Ok(supported) => supported,
                Err(_) => srgb,
            },
        }
    }
}

/// Request information to get a specific frame
#[must_use]
#[derive(Clone, Copy, Debug, PartialEq, Eq)]
pub struct FrameRequest {
    pub request: utils::FrameRequest,
}

impl Default for FrameRequest {
    fn default() -> (r: Self)
        ensures
            r.request == (utils::FrameRequest { scale: None, clip: None }),
    {
        FrameRequest { request: utils::FrameRequest::default() }
    }
}

impl FrameRequest {
    pub fn new() -> (r: Self)
        ensures
            r.request == (utils::FrameRequest { scale: None, clip: None }),
    {
        Self::default()
    }

    pub fn scale(self, width: u32, height: u32) -> (r: Self)
        ensures
            r.request == (utils::FrameRequest { scale: Some((width, height)), ..self.request }),
    {
        let mut request = self;
        request.request.scale = Some((width, height));
        request
    }

    pub fn clip(self, x: u32, y: u32, width: u32, height: u32) -> (r: Self)
        ensures
            r.request == (utils::FrameRequest { clip: Some((x, y, width, height)), ..self.request }),
    {
        let mut request = self;
        request.request.clip = Some((x, y, width, height));
        request
    }
}

/// Description of a frame
pub struct FrameDetails {
    pub inner: Arc<utils::FrameDetails>,
}

impl Clone for FrameDetails {
    fn clone(&self) -> (r: Self)
        ensures
            r == *self,
    {
        FrameDetails { inner: self.inner.clone() }
    }
}

impl FrameDetails {
    pub(crate) fn new(inner: Arc<utils::FrameDetails>) -> (r: Self)
        ensures
            r.inner == inner,
    {
        FrameDetails { inner }
    }

    /// Color space of the frame, if it is given by valid code points
    pub fn color_cicp(&self) -> (r: Option<Cicp>)
        ensures
            r == match self.inner.color_cicp {
                Some(codes) => crate::color::color_of_codes(codes@),
                None => None,
            },
    {
        match self.inner.color_cicp {
            Some(codes) => match Cicp::from_bytes(&codes) {
                Ok(color) => Some(color),
                Err(_) => None,
            },
            None => None,
        }
    }

    pub fn color_icc_profile(&self) -> (r: Option<BinaryData>)
        ensures
            r == self.inner.color_icc_profile,
    {
        match &self.inner.color_icc_profile {
            Some(data) => Some(data.clone()),
            None => None,
        }
    }

    pub fn info_alpha_channel(&self) -> (r: Option<bool>)
        ensures
            r == self.inner.info_alpha_channel,
    {
        self.inner.info_alpha_channel
    }

    pub fn info_bit_depth(&self) -> (r: Option<u8>)
        ensures
            r == self.inner.info_bit_depth,
    {
        self.inner.info_bit_depth
    }

    pub fn info_grayscale(&self) -> (r: Option<bool>)
        ensures
            r == self.inner.info_grayscale,
    {
        self.inner.info_grayscale
    }

    pub fn n_frame(&self) -> (r: Option<u64>)
        ensures
            r == self.inner.n_frame,
    {
        self.inner.n_frame
    }
}

/// Without any option transformations are applied, the sandbox mechanism fits the
/// environment, no directory is exposed and every memory format is accepted.
pub proof fn default_options<F, S, P, C>(loader: Loader<F, S, P, C>, format: MemoryFormat)
    requires
        loader.has_default_options(),
    ensures
        loader.apply_transformations,
        loader.sandbox_selector == SandboxSelector::Auto,
        !loader.use_expose_base_dir,
        loader.memory_format_selection@.contains(format),
{
}

/// The formats for which there is a loader by default
pub proof fn default_formats<F, S, P, C>()
    ensures
        Loader::<F, S, P, C>::DEFAULT_MIME_TYPES@ == seq![
            "image/jpeg",
            "image/png",
            "image/gif",
            "image/webp",
            "image/tiff",
            "image/x-tga",
            "image/vnd-ms.dds",
            "image/x-dds",
            "image/bmp",
            "image/vnd.microsoft.icon",
            "image/vnd.radiance",
            "image/x-exr",
            "image/x-portable-bitmap",
            "image/x-portable-graymap",
            "image/x-portable-pixmap",
            "image/x-portable-anymap",
            "image/x-qoi",
            "image/qoi",
            "image/avif",
            "image/heif",
            "image/jxl",
            "image/svg+xml",
            "image/svg+xml-compressed",
        ],
{
    assert(Loader::<F, S, P, C>::DEFAULT_MIME_TYPES@ =~= seq![
        "image/jpeg",
        "image/png",
        "image/gif",
        "image/webp",
        "image/tiff",
        "image/x-tga",
        "image/vnd-ms.dds",
        "image/x-dds",
        "image/bmp",
        "image/vnd.microsoft.icon",
        "image/vnd.radiance",
        "image/x-exr",
        "image/x-portable-bitmap",
        "image/x-portable-graymap",
        "image/x-portable-pixmap",
        "image/x-portable-anymap",
        "image/x-qoi",
        "image/qoi",
        "image/avif",
        "image/heif",
        "image/jxl",
        "image/svg+xml",
        "image/svg+xml-compressed",
    ]);
}

} // verus!
