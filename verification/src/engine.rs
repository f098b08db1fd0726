//! The root handle: it exclusively owns one foreign engine instance, hands out
//! borrowed views of its sub-objects, and decodes the engine's foreign-owned
//! catalogs.
//!
//! Creation picks one foreign factory from the (backend, hosting context)
//! pair; not every pair is valid, and an invalid one fails fast with a
//! configuration error instead of attempting a fallback. Every view accessor
//! borrows from the live root, so no view can outlive it; destroying the root
//! consumes it, which makes the one destruction call structural and ends the
//! life of every view with it.
//!
//! The catalog accessors (rendering backends, plugin lists, reader options,
//! library and reader information) decode foreign-allocated records and lists:
//! the host copy is made and the one paired release happens on every path.

use vstd::prelude::*;

use crate::bytes::bytes_clone;
use crate::camera::Camera;
use crate::codec::OwnedRecord;
use crate::codec::SentinelList;
use crate::codec::decode_all;
use crate::codec::prefix_texts;
use crate::codec::texts_of;
use crate::interactor::Interactor;
use crate::kvstore::kv_lookup;
use crate::kvstore::kv_set;
use crate::options::Options;
use crate::scene::Scene;
use crate::text::MarshalError;
use crate::text::c_content;
use crate::text::contains_nul;
use crate::text::from_foreign;
use crate::text::opt_content;
use crate::text::opt_text;
use crate::text::to_foreign;
use crate::window::Window;

verus! {

/// Information about one module the library was built with.
pub struct F3DModuleInfo {
    /// The module's name.
    pub name: Vec<u8>,
    /// Whether the module is available.
    pub available: bool,
}

/// Version and build information of the foreign library.
pub struct F3DLibInfo {
    /// The version.
    pub version: Vec<u8>,
    /// The full version string.
    pub version_full: Vec<u8>,
    /// The build date.
    pub build_date: Vec<u8>,
    /// The build system.
    pub build_system: Vec<u8>,
    /// The compiler used.
    pub compiler: Vec<u8>,
    /// The module information.
    pub modules: F3DModuleInfo,
    /// The VTK version.
    pub vtk_version: Vec<u8>,
    /// The copyright lines.
    pub copyrights: Vec<Vec<u8>>,
    /// The license.
    pub license: Vec<u8>,
}

/// Information about one file reader.
pub struct F3DReaderInfo {
    /// The reader's name.
    pub name: Vec<u8>,
    /// A description.
    pub description: Vec<u8>,
    /// The file extensions it accepts.
    pub extensions: Vec<Vec<u8>>,
    /// The mime types it accepts.
    pub mime_types: Vec<Vec<u8>>,
    /// The plugin that provides it.
    pub plugin_name: Vec<u8>,
    /// Whether it reads full scenes.
    pub has_scene_reader: i32,
    /// Whether it reads plain geometry.
    pub has_geometry_reader: i32,
}

/// The library-information record as the foreign side hands it over: nullable
/// null-terminated strings and a sentinel-terminated copyright list, all freed
/// together by the record's one release call.
pub struct RawLibInfo {
    /// The version, or null.
    pub version: Option<Vec<u8>>,
    /// The full version string, or null.
    pub version_full: Option<Vec<u8>>,
    /// The build date, or null.
    pub build_date: Option<Vec<u8>>,
    /// The build system, or null.
    pub build_system: Option<Vec<u8>>,
    /// The compiler, or null.
    pub compiler: Option<Vec<u8>>,
    /// The module record.
    pub modules: RawModuleInfo,
    /// The VTK version, or null.
    pub vtk_version: Option<Vec<u8>>,
    /// The copyright lines, sentinel-terminated.
    pub copyrights: Vec<Option<Vec<u8>>>,
    /// The license, or null.
    pub license: Option<Vec<u8>>,
}

/// The module record inside [`RawLibInfo`].
pub struct RawModuleInfo {
    /// The module's name, or null.
    pub name: Option<Vec<u8>>,
    /// Whether the module is available, as a foreign boolean.
    pub available: i32,
}

/// One entry of the rendering-backend list; the list itself is terminated by
/// an entry whose name is null.
pub struct RawBackendEntry {
    /// The backend's name, null-terminated.
    pub name: Vec<u8>,
    /// Whether the backend is available, as a foreign boolean.
    pub available: i32,
}

/// The reader-information record as the foreign side hands it over, one
/// element of a sentinel-terminated record list freed as a whole.
pub struct RawReaderInfo {
    /// The reader's name, or null.
    pub name: Option<Vec<u8>>,
    /// A description, or null.
    pub description: Option<Vec<u8>>,
    /// The accepted extensions, sentinel-terminated.
    pub extensions: Vec<Option<Vec<u8>>>,
    /// The accepted mime types, sentinel-terminated.
    pub mime_types: Vec<Option<Vec<u8>>>,
    /// The providing plugin, or null.
    pub plugin_name: Option<Vec<u8>>,
    /// Whether it reads full scenes.
    pub has_scene_reader: i32,
    /// Whether it reads plain geometry.
    pub has_geometry_reader: i32,
}

/// A decoded reader record carries exactly what its raw record holds.
pub open spec fn reader_decoded(raw: RawReaderInfo, host: F3DReaderInfo) -> bool {
    &&& host.name@ == opt_content(raw.name)
    &&& host.description@ == opt_content(raw.description)
    &&& host.extensions@.len() == texts_of(raw.extensions@).len()
    &&& forall|j: int|
        0 <= j < host.extensions@.len() ==> host.extensions@[j]@ == texts_of(raw.extensions@)[j]
    &&& host.mime_types@.len() == texts_of(raw.mime_types@).len()
    &&& forall|j: int|
        0 <= j < host.mime_types@.len() ==> host.mime_types@[j]@ == texts_of(raw.mime_types@)[j]
    &&& host.plugin_name@ == opt_content(raw.plugin_name)
    &&& host.has_scene_reader == raw.has_scene_reader
    &&& host.has_geometry_reader == raw.has_geometry_reader
}

/// The rendering backend a root handle is created over.
pub enum EngineBackend {
    /// Pick a backend automatically.
    Auto {
        /// Whether to render offscreen.
        offscreen: bool,
    },
    /// No rendering at all.
    NoRender,
    /// GLX.
    Glx {
        /// Whether to render offscreen.
        offscreen: bool,
    },
    /// WGL.
    Wgl {
        /// Whether to render offscreen.
        offscreen: bool,
    },
    /// EGL, always offscreen.
    Egl,
    /// OSMesa, always offscreen.
    Omesa,
    /// Cocoa, for an externally hosted window.
    Cocoa,
}

/// Who hosts the rendering context.
pub enum EngineContext {
    /// The engine manages its own window.
    Internal,
    /// The caller supplies the platform window.
    ExternalPlatform,
}

/// The foreign factory call a (backend, context) pair selects.
pub enum CreateCall {
    /// Auto-detected backend, internal window.
    CreateAuto {
        /// Whether to render offscreen.
        offscreen: bool,
    },
    /// No rendering.
    CreateNoRender,
    /// GLX, internal window.
    CreateGlx {
        /// Whether to render offscreen.
        offscreen: bool,
    },
    /// WGL, internal window.
    CreateWgl {
        /// Whether to render offscreen.
        offscreen: bool,
    },
    /// EGL, offscreen.
    CreateEgl,
    /// OSMesa, offscreen.
    CreateOsmesa,
    /// GLX over an external platform window.
    CreateExternalGlx,
    /// WGL over an external platform window.
    CreateExternalWgl,
    /// Cocoa over an external platform window.
    CreateExternalCocoa,
}

/// The factory a pair selects; an invalid pair selects none.
pub open spec fn select_factory_spec(backend: EngineBackend, context: EngineContext) -> Option<
    CreateCall,
> {
    match (backend, context) {
        (EngineBackend::Auto { offscreen }, EngineContext::Internal) => Some(
            CreateCall::CreateAuto { offscreen },
        ),
        (EngineBackend::NoRender, EngineContext::Internal) => Some(CreateCall::CreateNoRender),
        (EngineBackend::Glx { offscreen }, EngineContext::Internal) => Some(
            CreateCall::CreateGlx { offscreen },
        ),
        (EngineBackend::Wgl { offscreen }, EngineContext::Internal) => Some(
            CreateCall::CreateWgl { offscreen },
        ),
        (EngineBackend::Egl, EngineContext::Internal) => Some(CreateCall::CreateEgl),
        (EngineBackend::Omesa, EngineContext::Internal) => Some(CreateCall::CreateOsmesa),
        (EngineBackend::Glx { .. }, EngineContext::ExternalPlatform) => Some(
            CreateCall::CreateExternalGlx,
        ),
        (EngineBackend::Wgl { .. }, EngineContext::ExternalPlatform) => Some(
            CreateCall::CreateExternalWgl,
        ),
        (EngineBackend::Cocoa, EngineContext::ExternalPlatform) => Some(
            CreateCall::CreateExternalCocoa,
        ),
        _ => None,
    }
}

/// Whether the factory opens an offscreen window: the offscreen flag where
/// there is one, always for the offscreen-only backends, never for external
/// windows or no rendering.
pub open spec fn factory_offscreen(call: CreateCall) -> bool {
    match call {
        CreateCall::CreateAuto { offscreen } => offscreen,
        CreateCall::CreateNoRender => false,
        CreateCall::CreateGlx { offscreen } => offscreen,
        CreateCall::CreateWgl { offscreen } => offscreen,
        CreateCall::CreateEgl => true,
        CreateCall::CreateOsmesa => true,
        CreateCall::CreateExternalGlx => false,
        CreateCall::CreateExternalWgl => false,
        CreateCall::CreateExternalCocoa => false,
    }
}

/// How creating a root handle can fail.
#[derive(Clone, Copy, Debug, PartialEq, Eq, Structural)]
pub enum EngineError {
    /// The (backend, context) pair selects no factory.
    InvalidBackendContext,
}

/// Picks the foreign factory for a (backend, context) pair; an invalid pair
/// is a configuration error, reported before any foreign work.
pub fn select_factory(backend: &EngineBackend, context: &EngineContext) -> (r: Result<
    CreateCall,
    EngineError,
>)
    ensures
        match r {
            Ok(call) => select_factory_spec(*backend, *context) == Some(call),
            Err(e) => e == EngineError::InvalidBackendContext && select_factory_spec(
                *backend,
                *context,
            ) is None,
        },
{
    match (backend, context) {
        (EngineBackend::Auto { offscreen }, EngineContext::Internal) => Ok(
            CreateCall::CreateAuto { offscreen: *offscreen },
        ),
        (EngineBackend::NoRender, EngineContext::Internal) => Ok(CreateCall::CreateNoRender),
        (EngineBackend::Glx { offscreen }, EngineContext::Internal) => Ok(
            CreateCall::CreateGlx { offscreen: *offscreen },
        ),
        (EngineBackend::Wgl { offscreen }, EngineContext::Internal) => Ok(
            CreateCall::CreateWgl { offscreen: *offscreen },
        ),
        (EngineBackend::Egl, EngineContext::Internal) => Ok(CreateCall::CreateEgl),
        (EngineBackend::Omesa, EngineContext::Internal) => Ok(CreateCall::CreateOsmesa),
        (EngineBackend::Glx { .. }, EngineContext::ExternalPlatform) => Ok(
            CreateCall::CreateExternalGlx,
        ),
        (EngineBackend::Wgl { .. }, EngineContext::ExternalPlatform) => Ok(
            CreateCall::CreateExternalWgl,
        ),
        (EngineBackend::Cocoa, EngineContext::ExternalPlatform) => Ok(
            CreateCall::CreateExternalCocoa,
        ),
        _ => Err(EngineError::InvalidBackendContext),
    }
}

/// The root handle: exclusive owner of one foreign engine instance and of the
/// state its borrowed views share.
pub struct Engine {
    options: Options,
    scene: Scene,
    interactor: Interactor,
    window: Window,
    camera: Camera,
    cache_path: Vec<u8>,
    plugins: Vec<Vec<u8>>,
    plugins_autoloaded: bool,
    reader_options: Vec<(Vec<u8>, Vec<u8>)>,
}

impl Engine {
    /// The option store.
    pub closed spec fn opts(&self) -> Options {
        self.options
    }

    /// The scene state.
    pub closed spec fn scene_v(&self) -> Scene {
        self.scene
    }

    /// The interactor state.
    pub closed spec fn interactor_v(&self) -> Interactor {
        self.interactor
    }

    /// The window state.
    pub closed spec fn window_v(&self) -> Window {
        self.window
    }

    /// The camera state.
    pub closed spec fn camera_v(&self) -> Camera {
        self.camera
    }

    /// The cache path.
    pub closed spec fn cache_path_v(&self) -> Seq<u8> {
        self.cache_path@
    }

    /// The plugins loaded by hand, in order.
    pub closed spec fn plugins_v(&self) -> Seq<Seq<u8>> {
        self.plugins@.map_values(|v: Vec<u8>| v@)
    }

    /// Whether plugins were auto-loaded.
    pub closed spec fn autoloaded(&self) -> bool {
        self.plugins_autoloaded
    }

    /// The reader option stored under a name, if any.
    pub closed spec fn reader_option_v(&self, name: Seq<u8>) -> Option<Vec<u8>> {
        kv_lookup(self.reader_options@, name)
    }

    /// The component invariants hold together.
    pub open spec fn wf(&self) -> bool {
        &&& self.scene_v().wf()
        &&& self.interactor_v().wf()
    }

    /// Creates the root handle: picks the factory for the (backend, context)
    /// pair — an invalid pair is a configuration error, and nothing is
    /// created — and owns the fresh instance, whose window is offscreen
    /// exactly when the factory renders offscreen.
    pub fn new(backend: EngineBackend, context: EngineContext) -> (r: Result<Engine, EngineError>)
        ensures
            match r {
                Ok(e) => {
                    &&& select_factory_spec(backend, context) is Some
                    &&& e.wf()
                    &&& e.window_v().offscreen_view() == factory_offscreen(
                        select_factory_spec(backend, context).unwrap(),
                    )
                    &&& forall|k: Seq<u8>| e.opts().opt(k) is None
                    &&& e.scene_v().loaded_paths() == Seq::<Seq<u8>>::empty()
                    &&& e.scene_v().lights_view() == Seq::<crate::scene::F3DLightState>::empty()
                    &&& forall|a: Seq<u8>| e.interactor_v().command_of(a) is None
                    &&& forall|k: Seq<u8>| e.interactor_v().binding_of(k) is None
                    &&& !e.interactor_v().loop_view().running
                    &&& e.cache_path_v() == Seq::<u8>::empty()
                    &&& e.plugins_v() == Seq::<Seq<u8>>::empty()
                    &&& !e.autoloaded()
                    &&& forall|n: Seq<u8>| e.reader_option_v(n) is None
                },
                Err(e) => e == EngineError::InvalidBackendContext && select_factory_spec(
                    backend,
                    context,
                ) is None,
            },
    {
        let call = match select_factory(&backend, &context) {
            Ok(c) => c,
            Err(e) => {
                return Err(e);
            },
        };
        let offscreen = match call {
            CreateCall::CreateAuto { offscreen } => offscreen,
            CreateCall::CreateNoRender => false,
            CreateCall::CreateGlx { offscreen } => offscreen,
            CreateCall::CreateWgl { offscreen } => offscreen,
            CreateCall::CreateEgl => true,
            CreateCall::CreateOsmesa => true,
            CreateCall::CreateExternalGlx => false,
            CreateCall::CreateExternalWgl => false,
            CreateCall::CreateExternalCocoa => false,
        };
        let e = Engine {
            options: Options::new(),
            scene: Scene::new(),
            interactor: Interactor::new(),
            window: Window::new(offscreen),
            camera: Camera::new(),
            cache_path: Vec::new(),
            plugins: Vec::new(),
            plugins_autoloaded: false,
            reader_options: Vec::new(),
        };
        proof {
            assert(e.plugins_v() =~= Seq::<Seq<u8>>::empty());
        }
        Ok(e)
    }

    /// A borrowed view of the option store, valid while the root is.
    pub fn options(&mut self) -> (r: &mut Options)
        ensures
            *r == old(self).opts(),
            final(self).opts() == *final(r),
            final(self).scene_v() == old(self).scene_v(),
            final(self).interactor_v() == old(self).interactor_v(),
            final(self).window_v() == old(self).window_v(),
            final(self).camera_v() == old(self).camera_v(),
            final(self).cache_path_v() == old(self).cache_path_v(),
            final(self).plugins_v() == old(self).plugins_v(),
            final(self).autoloaded() == old(self).autoloaded(),
            forall|n: Seq<u8>| final(self).reader_option_v(n) == old(self).reader_option_v(n),
    {
        &mut self.options
    }

    /// A borrowed view of the scene, valid while the root is.
    pub fn scene(&mut self) -> (r: &mut Scene)
        ensures
            *r == old(self).scene_v(),
            final(self).scene_v() == *final(r),
            final(self).opts() == old(self).opts(),
            final(self).interactor_v() == old(self).interactor_v(),
            final(self).window_v() == old(self).window_v(),
            final(self).camera_v() == old(self).camera_v(),
            final(self).cache_path_v() == old(self).cache_path_v(),
            final(self).plugins_v() == old(self).plugins_v(),
            final(self).autoloaded() == old(self).autoloaded(),
            forall|n: Seq<u8>| final(self).reader_option_v(n) == old(self).reader_option_v(n),
    {
        &mut self.scene
    }

    /// A borrowed view of the interactor, valid while the root is.
    pub fn interactor(&mut self) -> (r: &mut Interactor)
        ensures
            *r == old(self).interactor_v(),
            final(self).interactor_v() == *final(r),
            final(self).opts() == old(self).opts(),
            final(self).scene_v() == old(self).scene_v(),
            final(self).window_v() == old(self).window_v(),
            final(self).camera_v() == old(self).camera_v(),
            final(self).cache_path_v() == old(self).cache_path_v(),
            final(self).plugins_v() == old(self).plugins_v(),
            final(self).autoloaded() == old(self).autoloaded(),
            forall|n: Seq<u8>| final(self).reader_option_v(n) == old(self).reader_option_v(n),
    {
        &mut self.interactor
    }

    /// A borrowed view of the window, valid while the root is.
    pub fn window(&mut self) -> (r: &mut Window)
        ensures
            *r == old(self).window_v(),
            final(self).window_v() == *final(r),
            final(self).opts() == old(self).opts(),
            final(self).scene_v() == old(self).scene_v(),
            final(self).interactor_v() == old(self).interactor_v(),
            final(self).camera_v() == old(self).camera_v(),
            final(self).cache_path_v() == old(self).cache_path_v(),
            final(self).plugins_v() == old(self).plugins_v(),
            final(self).autoloaded() == old(self).autoloaded(),
            forall|n: Seq<u8>| final(self).reader_option_v(n) == old(self).reader_option_v(n),
    {
        &mut self.window
    }

    /// A borrowed view of the camera, valid while the root is.
    pub fn camera(&mut self) -> (r: &mut Camera)
        ensures
            *r == old(self).camera_v(),
            final(self).camera_v() == *final(r),
            final(self).opts() == old(self).opts(),
            final(self).scene_v() == old(self).scene_v(),
            final(self).interactor_v() == old(self).interactor_v(),
            final(self).window_v() == old(self).window_v(),
            final(self).cache_path_v() == old(self).cache_path_v(),
            final(self).plugins_v() == old(self).plugins_v(),
            final(self).autoloaded() == old(self).autoloaded(),
            forall|n: Seq<u8>| final(self).reader_option_v(n) == old(self).reader_option_v(n),
    {
        &mut self.camera
    }

    /// Destroys the root handle and with it the foreign instance, exactly
    /// once: consuming the handle makes a second destruction, and any use of a
    /// borrowed view past this point, impossible to write.
    pub fn delete(self) {
    }

    /// Marks the plugin auto-loader as run.
    pub fn auto_load_plugins(&mut self)
        ensures
            final(self).autoloaded(),
            final(self).opts() == old(self).opts(),
            final(self).scene_v() == old(self).scene_v(),
            final(self).interactor_v() == old(self).interactor_v(),
            final(self).window_v() == old(self).window_v(),
            final(self).camera_v() == old(self).camera_v(),
            final(self).cache_path_v() == old(self).cache_path_v(),
            final(self).plugins_v() == old(self).plugins_v(),
            forall|n: Seq<u8>| final(self).reader_option_v(n) == old(self).reader_option_v(n),
    {
        self.plugins_autoloaded = true;
    }

    /// Sets the engine's cache path; a path embedding the terminator byte is
    /// rejected with nothing changed.
    pub fn set_cache_path(&mut self, path: &[u8]) -> (r: Result<(), MarshalError>)
        ensures
            match r {
                Ok(()) => !contains_nul(path@) && final(self).cache_path_v() == path@,
                Err(e) => e == MarshalError::EmbeddedTerminator && contains_nul(path@) && *final(self) == *old(self),
            },
            final(self).opts() == old(self).opts(),
            final(self).scene_v() == old(self).scene_v(),
            final(self).interactor_v() == old(self).interactor_v(),
            final(self).window_v() == old(self).window_v(),
            final(self).camera_v() == old(self).camera_v(),
            final(self).plugins_v() == old(self).plugins_v(),
            final(self).autoloaded() == old(self).autoloaded(),
            forall|n: Seq<u8>| final(self).reader_option_v(n) == old(self).reader_option_v(n),
    {
        if let Err(e) = to_foreign(path) {
            return Err(e);
        }
        self.cache_path = bytes_clone(path);
        Ok(())
    }

    /// Loads one plugin by path; a path embedding the terminator byte is
    /// rejected with nothing changed.
    pub fn load_plugin(&mut self, plugin_path: &[u8]) -> (r: Result<(), MarshalError>)
        ensures
            match r {
                Ok(()) => !contains_nul(plugin_path@) && final(self).plugins_v() == old(self).plugins_v().push(plugin_path@),
                Err(e) => e == MarshalError::EmbeddedTerminator && contains_nul(plugin_path@)
                    && *final(self) == *old(self),
            },
            final(self).opts() == old(self).opts(),
            final(self).scene_v() == old(self).scene_v(),
            final(self).interactor_v() == old(self).interactor_v(),
            final(self).window_v() == old(self).window_v(),
            final(self).camera_v() == old(self).camera_v(),
            final(self).cache_path_v() == old(self).cache_path_v(),
            final(self).autoloaded() == old(self).autoloaded(),
            forall|n: Seq<u8>| final(self).reader_option_v(n) == old(self).reader_option_v(n),
    {
        if let Err(e) = to_foreign(plugin_path) {
            return Err(e);
        }
        self.plugins.push(bytes_clone(plugin_path));
        proof {
            assert(self.plugins_v() =~= old(self).plugins_v().push(plugin_path@));
        }
        Ok(())
    }

    /// Sets a reader option by name; a name or value embedding the terminator
    /// byte is rejected with nothing changed.
    pub fn set_reader_option(&mut self, name: &[u8], value: &[u8]) -> (r: Result<
        (),
        MarshalError,
    >)
        ensures
            match r {
                Ok(()) => {
                    &&& !contains_nul(name@) && !contains_nul(value@)
                    &&& final(self).reader_option_v(name@) is Some
                    &&& final(self).reader_option_v(name@).unwrap()@ == value@
                    &&& forall|n2: Seq<u8>|
                        n2 != name@ ==> final(self).reader_option_v(n2) == old(self).reader_option_v(
                            n2,
                        )
                },
                Err(e) => e == MarshalError::EmbeddedTerminator && (contains_nul(name@)
                    || contains_nul(value@)) && *final(self) == *old(self),
            },
            final(self).opts() == old(self).opts(),
            final(self).scene_v() == old(self).scene_v(),
            final(self).interactor_v() == old(self).interactor_v(),
            final(self).window_v() == old(self).window_v(),
            final(self).camera_v() == old(self).camera_v(),
            final(self).cache_path_v() == old(self).cache_path_v(),
            final(self).plugins_v() == old(self).plugins_v(),
            final(self).autoloaded() == old(self).autoloaded(),
    {
        if let Err(e) = to_foreign(name) {
            return Err(e);
        }
        if let Err(e) = to_foreign(value) {
            return Err(e);
        }
        kv_set(&mut self.reader_options, name, bytes_clone(value));
        Ok(())
    }

    /// Decodes the foreign list of rendering backends: each surviving entry's
    /// name and availability are copied, and the one bulk release happens
    /// exactly when the list was there at all; a null list decodes to nothing.
    pub fn get_rendering_backends(list: &mut SentinelList<RawBackendEntry>) -> (r: Vec<
        (Vec<u8>, bool),
    >)
        requires
            old(list).wf(),
            !old(list).released(),
        ensures
            r@.len() == old(list).decoded().len(),
            forall|i: int|
                0 <= i < r@.len() ==> r@[i].0@ == c_content(old(list).decoded()[i].name@) && r@[i].1
                    == (old(list).decoded()[i].available != 0),
            final(list).released() == old(list).is_present(),
    {
        let raw = list.take();
        let mut r: Vec<(Vec<u8>, bool)> = Vec::new();
        let mut i: usize = 0;
        while i < raw.len()
            invariant
                i <= raw@.len(),
                raw@ == old(list).decoded(),
                r@.len() == i,
                forall|j: int|
                    0 <= j < i ==> r@[j].0@ == c_content(raw@[j].name@) && r@[j].1 == (raw@[j].available
                        != 0),
            decreases raw@.len() - i,
        {
            let name = from_foreign(raw[i].name.as_slice());
            let available = raw[i].available != 0;
            r.push((name, available));
            i += 1;
        }
        r
    }

    /// Decodes the foreign list of plugins found under a path: a path
    /// embedding the terminator byte is rejected before any foreign work, so
    /// the list stays untouched; otherwise the names are copied and the one
    /// bulk release happens exactly when the list was there at all.
    pub fn get_plugins_list(path: &[u8], list: &mut SentinelList<Vec<u8>>) -> (r: Result<
        Vec<Vec<u8>>,
        MarshalError,
    >)
        requires
            old(list).wf(),
            !old(list).released(),
        ensures
            match r {
                Ok(names) => {
                    &&& !contains_nul(path@)
                    &&& names@.len() == old(list).decoded().len()
                    &&& forall|i: int|
                        0 <= i < names@.len() ==> names@[i]@ == c_content(old(list).decoded()[i]@)
                    &&& final(list).released() == old(list).is_present()
                },
                Err(e) => {
                    &&& e == MarshalError::EmbeddedTerminator
                    &&& contains_nul(path@)
                    &&& *final(list) == *old(list)
                },
            },
    {
        if let Err(e) = to_foreign(path) {
            return Err(e);
        }
        let raw = list.take();
        Ok(decode_all(&raw))
    }

    /// Decodes the foreign list of reader option names: the names are copied
    /// and the one bulk release happens exactly when the list was there at
    /// all; a null list decodes to nothing.
    pub fn get_all_reader_option_names(list: &mut SentinelList<Vec<u8>>) -> (r: Vec<Vec<u8>>)
        requires
            old(list).wf(),
            !old(list).released(),
        ensures
            r@.len() == old(list).decoded().len(),
            forall|i: int| 0 <= i < r@.len() ==> r@[i]@ == c_content(old(list).decoded()[i]@),
            final(list).released() == old(list).is_present(),
    {
        let raw = list.take();
        decode_all(&raw)
    }

    /// Decodes the library-information record: every nullable string is
    /// deep-copied (a null one reads as empty), the copyright list is copied
    /// up to its sentinel, and the record's one release happens exactly when
    /// the record was there; a null record yields nothing and owes no release.
    pub fn get_lib_info(raw: &mut OwnedRecord<RawLibInfo>) -> (r: Option<F3DLibInfo>)
        requires
            !old(raw).released(),
        ensures
            match r {
                Some(info) => {
                    &&& old(raw).is_present()
                    &&& info.version@ == opt_content(old(raw).record().unwrap().version)
                    &&& info.version_full@ == opt_content(old(raw).record().unwrap().version_full)
                    &&& info.build_date@ == opt_content(old(raw).record().unwrap().build_date)
                    &&& info.build_system@ == opt_content(old(raw).record().unwrap().build_system)
                    &&& info.compiler@ == opt_content(old(raw).record().unwrap().compiler)
                    &&& info.modules.name@ == opt_content(old(raw).record().unwrap().modules.name)
                    &&& info.modules.available == (old(raw).record().unwrap().modules.available
                        != 0)
                    &&& info.vtk_version@ == opt_content(old(raw).record().unwrap().vtk_version)
                    &&& info.copyrights@.len() == texts_of(
                        old(raw).record().unwrap().copyrights@,
                    ).len()
                    &&& forall|i: int|
                        0 <= i < info.copyrights@.len() ==> info.copyrights@[i]@ == texts_of(
                            old(raw).record().unwrap().copyrights@,
                        )[i]
                    &&& info.license@ == opt_content(old(raw).record().unwrap().license)
                },
                None => !old(raw).is_present(),
            },
            final(raw).released() == old(raw).is_present(),
    {
        let v = match raw.take() {
            Some(v) => v,
            None => {
                return None;
            },
        };
        let copyrights = prefix_texts(&v.copyrights);
        let info = F3DLibInfo {
            version: opt_text(&v.version),
            version_full: opt_text(&v.version_full),
            build_date: opt_text(&v.build_date),
            build_system: opt_text(&v.build_system),
            compiler: opt_text(&v.compiler),
            modules: F3DModuleInfo {
                name: opt_text(&v.modules.name),
                available: v.modules.available != 0,
            },
            vtk_version: opt_text(&v.vtk_version),
            copyrights,
            license: opt_text(&v.license),
        };
        Some(info)
    }

    /// Decodes the foreign list of reader-information records: every record's
    /// strings and string lists are deep-copied, and the one bulk release of
    /// the whole list happens exactly when the list was there at all.
    pub fn get_readers_info(list: &mut SentinelList<RawReaderInfo>) -> (r: Vec<F3DReaderInfo>)
        requires
            old(list).wf(),
            !old(list).released(),
        ensures
            r@.len() == old(list).decoded().len(),
            forall|i: int| 0 <= i < r@.len() ==> reader_decoded(old(list).decoded()[i], r@[i]),
            final(list).released() == old(list).is_present(),
    {
        let raw = list.take();
        let mut r: Vec<F3DReaderInfo> = Vec::new();
        let mut i: usize = 0;
        while i < raw.len()
            invariant
                i <= raw@.len(),
                raw@ == old(list).decoded(),
                r@.len() == i,
                forall|j: int| 0 <= j < i ==> reader_decoded(raw@[j], r@[j]),
            decreases raw@.len() - i,
        {
            let entry = F3DReaderInfo {
                name: opt_text(&raw[i].name),
                description: opt_text(&raw[i].description),
                extensions: prefix_texts(&raw[i].extensions),
                mime_types: prefix_texts(&raw[i].mime_types),
                plugin_name: opt_text(&raw[i].plugin_name),
                has_scene_reader: raw[i].has_scene_reader,
                has_geometry_reader: raw[i].has_geometry_reader,
            };
            proof {
                assert(reader_decoded(raw@[i as int], entry));
            }
            r.push(entry);
            i += 1;
        }
        r
    }
}

} // verus!
