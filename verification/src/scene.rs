//! The scene view: content loading, the light store, and reader support.
//!
//! The scene is a borrowed view of the engine's foreign instance. Paths
//! crossing the boundary are marshaled (an embedded terminator byte is
//! rejected before any foreign work); lights are value records managed by
//! index; meshes are marshaled into the counted layout the one consuming call
//! expects. Geometry payloads that the foreign side holds as floating-point
//! values are carried here as raw bit patterns (`u32` for single, `u64` for
//! double precision) — the host layer owns the floats and converts at the
//! boundary.

use vstd::prelude::*;

use crate::bytes::bytes_clone;
use crate::bytes::bytes_eq;
use crate::bytes::copy_vec;
use crate::text::MarshalError;
use crate::text::contains_nul;
use crate::text::to_foreign;

verus! {

/// The kind of a light.
#[derive(Clone, Copy, Debug, PartialEq, Eq, Structural)]
pub enum F3DLightType {
    /// A light attached to the viewpoint.
    Headlight,
    /// A light attached to the camera.
    CameraLight,
    /// A light placed in the scene.
    SceneLight,
}

/// The raw value each light kind crosses the boundary as.
pub open spec fn light_type_to_raw_spec(t: F3DLightType) -> u32 {
    match t {
        F3DLightType::Headlight => 1,
        F3DLightType::CameraLight => 2,
        F3DLightType::SceneLight => 3,
    }
}

impl F3DLightType {
    /// Encodes the kind for the foreign side.
    pub fn to_raw(&self) -> (r: u32)
        ensures
            r == light_type_to_raw_spec(*self),
    {
        match self {
            F3DLightType::Headlight => 1,
            F3DLightType::CameraLight => 2,
            F3DLightType::SceneLight => 3,
        }
    }

    /// Decodes a raw foreign value; an unrecognized value is reported rather
    /// than aborted on.
    pub fn from_raw(v: u32) -> (r: Option<F3DLightType>)
        ensures
            r == if v == 1 {
                Some(F3DLightType::Headlight)
            } else if v == 2 {
                Some(F3DLightType::CameraLight)
            } else if v == 3 {
                Some(F3DLightType::SceneLight)
            } else {
                None::<F3DLightType>
            },
    {
        match v {
            1 => Some(F3DLightType::Headlight),
            2 => Some(F3DLightType::CameraLight),
            3 => Some(F3DLightType::SceneLight),
            _ => None,
        }
    }
}

/// A light's state, passed by value into and out of the scene. Positions,
/// colors, directions and the intensity are double-precision values carried as
/// raw bit patterns.
#[derive(Clone, Copy, Debug)]
pub struct F3DLightState {
    /// The kind of light.
    pub type_: F3DLightType,
    /// The position, as bit patterns.
    pub position: [u64; 3],
    /// The color, as bit patterns.
    pub color: [u64; 3],
    /// The direction, as bit patterns.
    pub direction: [u64; 3],
    /// Whether the light is positional.
    pub positional_light: bool,
    /// The intensity, as a bit pattern.
    pub intensity: u64,
    /// Whether the light is switched on.
    pub switch_state: bool,
}

/// Field-wise equality of light states.
pub open spec fn light_eq(a: F3DLightState, b: F3DLightState) -> bool {
    &&& a.type_ == b.type_
    &&& a.position@ == b.position@
    &&& a.color@ == b.color@
    &&& a.direction@ == b.direction@
    &&& a.positional_light == b.positional_light
    &&& a.intensity == b.intensity
    &&& a.switch_state == b.switch_state
}

impl F3DLightState {
    /// Whether two light states hold the same values.
    pub fn equals(&self, other: &F3DLightState) -> (r: bool)
        ensures
            r == light_eq(*self, *other),
    {
        let r = self.type_.to_raw() == other.type_.to_raw() && self.position[0]
            == other.position[0] && self.position[1] == other.position[1] && self.position[2]
            == other.position[2] && self.color[0] == other.color[0] && self.color[1]
            == other.color[1] && self.color[2] == other.color[2] && self.direction[0]
            == other.direction[0] && self.direction[1] == other.direction[1] && self.direction[2]
            == other.direction[2] && self.positional_light == other.positional_light
            && self.intensity == other.intensity && self.switch_state == other.switch_state;
        proof {
            if r {
                assert(self.position@ =~= other.position@);
                assert(self.color@ =~= other.color@);
                assert(self.direction@ =~= other.direction@);
            }
            if light_eq(*self, *other) {
                assert(self.position@[0] == other.position@[0]);
                assert(self.position@[1] == other.position@[1]);
                assert(self.position@[2] == other.position@[2]);
                assert(self.color@[0] == other.color@[0]);
                assert(self.color@[1] == other.color@[1]);
                assert(self.color@[2] == other.color@[2]);
                assert(self.direction@[0] == other.direction@[0]);
                assert(self.direction@[1] == other.direction@[1]);
                assert(self.direction@[2] == other.direction@[2]);
            }
        }
        r
    }
}

/// Transient geometry buffers the caller supplies for the one call that
/// consumes them. Coordinate payloads are single-precision values carried as
/// raw bit patterns.
pub struct F3DMesh {
    /// Point coordinates, three per point, as bit patterns.
    pub points: Vec<u32>,
    /// Point normals, three per point, as bit patterns.
    pub normals: Vec<u32>,
    /// Texture coordinates, two per point, as bit patterns.
    pub texture_coordinates: Vec<u32>,
    /// The number of sides of each face.
    pub face_sides: Vec<u32>,
    /// The point indices of the faces, flattened.
    pub face_indices: Vec<u32>,
}

/// A mesh in the counted layout the foreign call expects: every buffer is
/// paired with its element count.
pub struct RawMesh {
    /// Point coordinates.
    pub points: Vec<u32>,
    /// The number of point coordinates.
    pub points_count: usize,
    /// Point normals.
    pub normals: Vec<u32>,
    /// The number of normal coordinates.
    pub normals_count: usize,
    /// Texture coordinates.
    pub texture_coordinates: Vec<u32>,
    /// The number of texture coordinates.
    pub texture_coordinates_count: usize,
    /// Face side counts.
    pub face_sides: Vec<u32>,
    /// The number of face side counts.
    pub face_sides_count: usize,
    /// Flattened face indices.
    pub face_indices: Vec<u32>,
    /// The number of face indices.
    pub face_indices_count: usize,
}

impl F3DMesh {
    /// Marshals the mesh into the counted foreign layout: each buffer is
    /// copied and paired with exactly its length, so the foreign side reads no
    /// further than the data handed over.
    pub fn as_raw(&self) -> (r: RawMesh)
        ensures
            r.points@ == self.points@,
            r.points_count == self.points@.len(),
            r.normals@ == self.normals@,
            r.normals_count == self.normals@.len(),
            r.texture_coordinates@ == self.texture_coordinates@,
            r.texture_coordinates_count == self.texture_coordinates@.len(),
            r.face_sides@ == self.face_sides@,
            r.face_sides_count == self.face_sides@.len(),
            r.face_indices@ == self.face_indices@,
            r.face_indices_count == self.face_indices@.len(),
    {
        RawMesh {
            points: copy_vec(&self.points),
            points_count: self.points.len(),
            normals: copy_vec(&self.normals),
            normals_count: self.normals.len(),
            texture_coordinates: copy_vec(&self.texture_coordinates),
            texture_coordinates_count: self.texture_coordinates.len(),
            face_sides: copy_vec(&self.face_sides),
            face_sides_count: self.face_sides.len(),
            face_indices: copy_vec(&self.face_indices),
            face_indices_count: self.face_indices.len(),
        }
    }
}

/// How a scene operation on a light index can fail.
#[derive(Clone, Copy, Debug, PartialEq, Eq, Structural)]
pub enum SceneError {
    /// The index names no light.
    LightIndexOutOfRange,
}

/// The scene of one engine instance: loaded content, lights, and the reader
/// catalog the foreign engine consults when asked whether a file is
/// supported.
pub struct Scene {
    loaded: Vec<Vec<u8>>,
    buffers_loaded: u64,
    meshes_loaded: u64,
    lights: Vec<F3DLightState>,
    reader_extensions: Vec<Vec<u8>>,
    animation_time_bits: u64,
    animation_range_bits: (u64, u64),
    animations: u32,
}

impl Scene {
    /// The paths of the content loaded so far, in order.
    pub closed spec fn loaded_paths(&self) -> Seq<Seq<u8>> {
        self.loaded@.map_values(|v: Vec<u8>| v@)
    }

    /// How many raw memory buffers were loaded.
    pub closed spec fn buffers(&self) -> u64 {
        self.buffers_loaded
    }

    /// How many meshes were loaded.
    pub closed spec fn meshes(&self) -> u64 {
        self.meshes_loaded
    }

    /// The lights, by index.
    pub closed spec fn lights_view(&self) -> Seq<F3DLightState> {
        self.lights@
    }

    /// The file extensions the loaded readers accept.
    pub closed spec fn reader_exts(&self) -> Seq<Seq<u8>> {
        self.reader_extensions@.map_values(|v: Vec<u8>| v@)
    }

    /// The last animation time loaded, as a bit pattern.
    pub closed spec fn animation_time(&self) -> u64 {
        self.animation_time_bits
    }

    /// The animation time range of the loaded content, as bit patterns.
    pub closed spec fn animation_range(&self) -> (u64, u64) {
        self.animation_range_bits
    }

    /// How many animations the loaded content offers.
    pub closed spec fn animations_view(&self) -> u32 {
        self.animations
    }

    /// The light store stays within the index range the foreign interface
    /// uses.
    pub open spec fn wf(&self) -> bool {
        self.lights_view().len() <= i32::MAX
    }

    /// An empty scene: nothing loaded, no lights, no readers.
    pub fn new() -> (r: Scene)
        ensures
            r.loaded_paths() == Seq::<Seq<u8>>::empty(),
            r.buffers() == 0,
            r.meshes() == 0,
            r.lights_view() == Seq::<F3DLightState>::empty(),
            r.reader_exts() == Seq::<Seq<u8>>::empty(),
            r.animation_time() == 0,
            r.wf(),
    {
        let r = Scene {
            loaded: Vec::new(),
            buffers_loaded: 0,
            meshes_loaded: 0,
            lights: Vec::new(),
            reader_extensions: Vec::new(),
            animation_time_bits: 0,
            animation_range_bits: (0, 0),
            animations: 0,
        };
        proof {
            assert(r.loaded_paths() =~= Seq::<Seq<u8>>::empty());
            assert(r.reader_exts() =~= Seq::<Seq<u8>>::empty());
        }
        r
    }

    /// Installs the reader catalog: the file extensions the foreign engine's
    /// loaded readers accept. Stands for the effect of plugin loading.
    pub fn install_reader_extensions(&mut self, exts: Vec<Vec<u8>>)
        ensures
            final(self).reader_exts() == exts@.map_values(|v: Vec<u8>| v@),
            final(self).loaded_paths() == old(self).loaded_paths(),
            final(self).lights_view() == old(self).lights_view(),
            final(self).buffers() == old(self).buffers(),
            final(self).meshes() == old(self).meshes(),
            final(self).wf() == old(self).wf(),
    {
        self.reader_extensions = exts;
    }

    /// Loads content from a path: the path is marshaled — one embedding the
    /// terminator byte is rejected with no foreign call — and recorded.
    pub fn add(&mut self, path: &[u8]) -> (r: Result<(), MarshalError>)
        ensures
            match r {
                Ok(()) => !contains_nul(path@) && final(self).loaded_paths() == old(self).loaded_paths().push(path@),
                Err(e) => e == MarshalError::EmbeddedTerminator && contains_nul(path@) && *final(self) == *old(self),
            },
            final(self).lights_view() == old(self).lights_view(),
            final(self).buffers() == old(self).buffers(),
            final(self).meshes() == old(self).meshes(),
            final(self).reader_exts() == old(self).reader_exts(),
            final(self).animation_time() == old(self).animation_time(),
            final(self).animation_range() == old(self).animation_range(),
            final(self).animations_view() == old(self).animations_view(),
            final(self).wf() == old(self).wf(),
    {
        if let Err(e) = to_foreign(path) {
            return Err(e);
        }
        self.loaded.push(bytes_clone(path));
        proof {
            assert(self.loaded_paths() =~= old(self).loaded_paths().push(path@));
        }
        Ok(())
    }

    /// Loads content from several paths in one call: every path is marshaled
    /// first, and one embedded terminator rejects the whole call with nothing
    /// loaded; otherwise all paths are recorded in order.
    pub fn add_multiple(&mut self, paths: &Vec<Vec<u8>>) -> (r: Result<(), MarshalError>)
        ensures
            match r {
                Ok(()) => (forall|i: int| 0 <= i < paths@.len() ==> !contains_nul(paths@[i]@))
                    && final(self).loaded_paths() == old(self).loaded_paths() + paths@.map_values(
                    |v: Vec<u8>| v@,
                ),
                Err(e) => e == MarshalError::EmbeddedTerminator && (exists|i: int|
                    0 <= i < paths@.len() && contains_nul(paths@[i]@)) && *final(self) == *old(self),
            },
            final(self).lights_view() == old(self).lights_view(),
            final(self).buffers() == old(self).buffers(),
            final(self).meshes() == old(self).meshes(),
            final(self).reader_exts() == old(self).reader_exts(),
            final(self).animation_time() == old(self).animation_time(),
            final(self).animation_range() == old(self).animation_range(),
            final(self).animations_view() == old(self).animations_view(),
            final(self).wf() == old(self).wf(),
    {
        let mut i: usize = 0;
        while i < paths.len()
            invariant
                i <= paths@.len(),
                forall|j: int| 0 <= j < i ==> !contains_nul(paths@[j]@),
            decreases paths@.len() - i,
        {
            if let Err(e) = to_foreign(paths[i].as_slice()) {
                return Err(e);
            }
            i += 1;
        }
        let mut k: usize = 0;
        while k < paths.len()
            invariant
                k <= paths@.len(),
                self.loaded@.len() == old(self).loaded@.len() + k,
                self.loaded_paths() == old(self).loaded_paths() + paths@.map_values(
                    |v: Vec<u8>| v@,
                ).take(k as int),
                self.buffers_loaded == old(self).buffers_loaded,
                self.meshes_loaded == old(self).meshes_loaded,
                self.lights == old(self).lights,
                self.reader_extensions == old(self).reader_extensions,
                self.animation_time_bits == old(self).animation_time_bits,
                self.animation_range_bits == old(self).animation_range_bits,
                self.animations == old(self).animations,
            decreases paths@.len() - k,
        {
            let ghost prev = self.loaded@;
            self.loaded.push(bytes_clone(paths[k].as_slice()));
            proof {
                let f = |v: Vec<u8>| v@;
                let m = paths@.map_values(f);
                assert(self.loaded@ == prev.push(self.loaded@.last()));
                assert(self.loaded@.map_values(f) =~= prev.map_values(f).push(
                    self.loaded@.last()@,
                ));
                assert(self.loaded@.last()@ == paths@[k as int]@);
                assert(m.take(k + 1 as int) =~= m.take(k as int).push(m[k as int]));
                assert(self.loaded_paths() =~= old(self).loaded_paths() + m.take(k + 1 as int));
            }
            k += 1;
        }
        proof {
            assert(paths@.map_values(|v: Vec<u8>| v@).take(paths@.len() as int) =~= paths@
                .map_values(|v: Vec<u8>| v@));
        }
        Ok(())
    }

    /// Loads content from a raw memory buffer; the buffer needs no marshaling
    /// and the foreign side copies what it needs before returning.
    pub fn add_buffer(&mut self, buffer: &[u8])
        requires
            old(self).buffers() < u64::MAX,
        ensures
            final(self).buffers() == old(self).buffers() + 1,
            final(self).loaded_paths() == old(self).loaded_paths(),
            final(self).lights_view() == old(self).lights_view(),
            final(self).meshes() == old(self).meshes(),
            final(self).reader_exts() == old(self).reader_exts(),
            final(self).animation_time() == old(self).animation_time(),
            final(self).animation_range() == old(self).animation_range(),
            final(self).animations_view() == old(self).animations_view(),
            final(self).wf() == old(self).wf(),
    {
        self.buffers_loaded += 1;
    }

    /// Loads a mesh: the buffers are marshaled into the counted layout and
    /// consumed by the one foreign call, which copies what it needs.
    pub fn add_mesh(&mut self, mesh: &F3DMesh)
        requires
            old(self).meshes() < u64::MAX,
        ensures
            final(self).meshes() == old(self).meshes() + 1,
            final(self).loaded_paths() == old(self).loaded_paths(),
            final(self).lights_view() == old(self).lights_view(),
            final(self).buffers() == old(self).buffers(),
            final(self).reader_exts() == old(self).reader_exts(),
            final(self).animation_time() == old(self).animation_time(),
            final(self).animation_range() == old(self).animation_range(),
            final(self).animations_view() == old(self).animations_view(),
            final(self).wf() == old(self).wf(),
    {
        let _raw = mesh.as_raw();
        self.meshes_loaded += 1;
    }

    /// Clears the loaded content; lights and the reader catalog stay.
    pub fn clear(&mut self)
        ensures
            final(self).loaded_paths() == Seq::<Seq<u8>>::empty(),
            final(self).buffers() == 0,
            final(self).meshes() == 0,
            final(self).lights_view() == old(self).lights_view(),
            final(self).reader_exts() == old(self).reader_exts(),
            final(self).animation_time() == old(self).animation_time(),
            final(self).animation_range() == old(self).animation_range(),
            final(self).animations_view() == old(self).animations_view(),
            final(self).wf() == old(self).wf(),
    {
        self.loaded.clear();
        self.buffers_loaded = 0;
        self.meshes_loaded = 0;
        proof {
            assert(self.loaded_paths() =~= Seq::<Seq<u8>>::empty());
        }
    }

    /// Adds a light and yields its index.
    pub fn add_light(&mut self, light_state: F3DLightState) -> (idx: i32)
        requires
            old(self).wf(),
            old(self).lights_view().len() < i32::MAX,
        ensures
            idx == old(self).lights_view().len(),
            final(self).lights_view() == old(self).lights_view().push(light_state),
            final(self).wf(),
            final(self).loaded_paths() == old(self).loaded_paths(),
            final(self).buffers() == old(self).buffers(),
            final(self).meshes() == old(self).meshes(),
            final(self).reader_exts() == old(self).reader_exts(),
            final(self).animation_time() == old(self).animation_time(),
            final(self).animation_range() == old(self).animation_range(),
            final(self).animations_view() == old(self).animations_view(),
    {
        let idx = self.lights.len() as i32;
        self.lights.push(light_state);
        idx
    }

    /// How many lights the scene holds.
    pub fn get_light_count(&self) -> (n: i32)
        requires
            self.wf(),
        ensures
            n == self.lights_view().len(),
    {
        self.lights.len() as i32
    }

    /// The light at an index, by value; an index naming no light yields
    /// nothing rather than failing.
    pub fn get_light(&self, index: i32) -> (r: Option<F3DLightState>)
        ensures
            match r {
                Some(l) => 0 <= index < self.lights_view().len() && l == self.lights_view()[index as int],
                None => index < 0 || index >= self.lights_view().len(),
            },
    {
        if index < 0 {
            return None;
        }
        let i = index as usize;
        if i >= self.lights.len() {
            return None;
        }
        Some(self.lights[i])
    }

    /// Replaces the light at an index; an index naming no light is reported.
    pub fn update_light(&mut self, index: i32, light_state: F3DLightState) -> (r: Result<
        (),
        SceneError,
    >)
        ensures
            match r {
                Ok(()) => 0 <= index < old(self).lights_view().len() && final(self).lights_view()
                    == old(self).lights_view().update(index as int, light_state),
                Err(e) => e == SceneError::LightIndexOutOfRange && (index < 0 || index >= old(self).lights_view().len()) && *final(self) == *old(self),
            },
            final(self).wf() == old(self).wf(),
            final(self).loaded_paths() == old(self).loaded_paths(),
            final(self).buffers() == old(self).buffers(),
            final(self).meshes() == old(self).meshes(),
            final(self).reader_exts() == old(self).reader_exts(),
            final(self).animation_time() == old(self).animation_time(),
            final(self).animation_range() == old(self).animation_range(),
            final(self).animations_view() == old(self).animations_view(),
    {
        if index < 0 {
            return Err(SceneError::LightIndexOutOfRange);
        }
        let i = index as usize;
        if i >= self.lights.len() {
            return Err(SceneError::LightIndexOutOfRange);
        }
        let e = vstd::std_specs::vec::vec_index_mut(&mut self.lights, i);
        *e = light_state;
        Ok(())
    }

    /// Removes the light at an index; an index naming no light is reported.
    pub fn remove_light(&mut self, index: i32) -> (r: Result<(), SceneError>)
        ensures
            match r {
                Ok(()) => 0 <= index < old(self).lights_view().len() && final(self).lights_view()
                    == old(self).lights_view().remove(index as int),
                Err(e) => e == SceneError::LightIndexOutOfRange && (index < 0 || index >= old(self).lights_view().len()) && *final(self) == *old(self),
            },
            old(self).wf() ==> final(self).wf(),
            final(self).loaded_paths() == old(self).loaded_paths(),
            final(self).buffers() == old(self).buffers(),
            final(self).meshes() == old(self).meshes(),
            final(self).reader_exts() == old(self).reader_exts(),
            final(self).animation_time() == old(self).animation_time(),
            final(self).animation_range() == old(self).animation_range(),
            final(self).animations_view() == old(self).animations_view(),
    {
        if index < 0 {
            return Err(SceneError::LightIndexOutOfRange);
        }
        let i = index as usize;
        if i >= self.lights.len() {
            return Err(SceneError::LightIndexOutOfRange);
        }
        self.lights.remove(i);
        Ok(())
    }

    /// Removes every light.
    pub fn remove_all_lights(&mut self)
        ensures
            final(self).lights_view() == Seq::<F3DLightState>::empty(),
            final(self).wf(),
            final(self).loaded_paths() == old(self).loaded_paths(),
            final(self).buffers() == old(self).buffers(),
            final(self).meshes() == old(self).meshes(),
            final(self).reader_exts() == old(self).reader_exts(),
            final(self).animation_time() == old(self).animation_time(),
            final(self).animation_range() == old(self).animation_range(),
            final(self).animations_view() == old(self).animations_view(),
    {
        self.lights.clear();
    }

    /// Whether a path's extension is accepted by a loaded reader: the path is
    /// marshaled (an embedded terminator is rejected), then held against the
    /// reader catalog.
    pub fn supports(&self, file_path: &[u8]) -> (r: Result<bool, MarshalError>)
        ensures
            match r {
                Ok(b) => !contains_nul(file_path@) && b == exists|i: int|
                    0 <= i < self.reader_exts().len() && path_has_extension(
                        file_path@,
                        self.reader_exts()[i],
                    ),
                Err(e) => e == MarshalError::EmbeddedTerminator && contains_nul(file_path@),
            },
    {
        if let Err(e) = to_foreign(file_path) {
            return Err(e);
        }
        let mut i: usize = 0;
        while i < self.reader_extensions.len()
            invariant
                !contains_nul(file_path@),
                i <= self.reader_extensions@.len(),
                forall|j: int|
                    0 <= j < i ==> !path_has_extension(file_path@, self.reader_exts()[j]),
            decreases self.reader_extensions@.len() - i,
        {
            if path_ends_with_extension(file_path, self.reader_extensions[i].as_slice()) {
                proof {
                    assert(self.reader_exts()[i as int] == self.reader_extensions@[i as int]@);
                    assert(path_has_extension(file_path@, self.reader_exts()[i as int]));
                    assert(exists|j: int|
                        0 <= j < self.reader_exts().len() && path_has_extension(
                            file_path@,
                            self.reader_exts()[j],
                        ));
                }
                return Ok(true);
            }
            i += 1;
        }
        Ok(false)
    }

    /// Loads the animation at a time value, given as a bit pattern.
    pub fn load_animation_time(&mut self, time_bits: u64)
        ensures
            final(self).animation_time() == time_bits,
            final(self).loaded_paths() == old(self).loaded_paths(),
            final(self).lights_view() == old(self).lights_view(),
            final(self).buffers() == old(self).buffers(),
            final(self).meshes() == old(self).meshes(),
            final(self).reader_exts() == old(self).reader_exts(),
            final(self).animation_range() == old(self).animation_range(),
            final(self).animations_view() == old(self).animations_view(),
            final(self).wf() == old(self).wf(),
    {
        self.animation_time_bits = time_bits;
    }

    /// Installs the animation information of the loaded content: the time
    /// range and the number of animations. Stands for what loading scene
    /// content establishes on the foreign side.
    pub fn install_animation_info(&mut self, range_bits: (u64, u64), count: u32)
        ensures
            final(self).animation_range() == range_bits,
            final(self).animations_view() == count,
            final(self).loaded_paths() == old(self).loaded_paths(),
            final(self).lights_view() == old(self).lights_view(),
            final(self).buffers() == old(self).buffers(),
            final(self).meshes() == old(self).meshes(),
            final(self).reader_exts() == old(self).reader_exts(),
            final(self).animation_time() == old(self).animation_time(),
            final(self).wf() == old(self).wf(),
    {
        self.animation_range_bits = range_bits;
        self.animations = count;
    }

    /// The animation time range, copied out through the two out-parameters'
    /// worth of bit patterns.
    pub fn animation_time_range(&self) -> (r: (u64, u64))
        ensures
            r == self.animation_range(),
    {
        self.animation_range_bits
    }

    /// How many animations the loaded content offers.
    pub fn available_animations(&self) -> (r: u32)
        ensures
            r == self.animations_view(),
    {
        self.animations
    }
}

/// Whether a path ends in a dot followed by the given extension.
pub open spec fn path_has_extension(path: Seq<u8>, ext: Seq<u8>) -> bool {
    &&& path.len() > ext.len()
    &&& path.subrange(path.len() - ext.len() - 1, path.len() as int) == seq![46u8] + ext
}

/// Compares a path's tail against a dot followed by the extension.
fn path_ends_with_extension(path: &[u8], ext: &[u8]) -> (r: bool)
    ensures
        r == path_has_extension(path@, ext@),
{
    if path.len() <= ext.len() {
        return false;
    }
    let start = path.len() - ext.len() - 1;
    let mut tail: Vec<u8> = Vec::new();
    tail.push(46);
    let mut t = tail;
    let mut i: usize = 0;
    while i < ext.len()
        invariant
            i <= ext@.len(),
            t@ == seq![46u8] + ext@.subrange(0, i as int),
        decreases ext@.len() - i,
    {
        t.push(ext[i]);
        proof {
            assert(t@ =~= seq![46u8] + ext@.subrange(0, i + 1 as int));
        }
        i += 1;
    }
    proof {
        assert(t@ =~= seq![46u8] + ext@);
    }
    bytes_eq(&path[start..path.len()], t.as_slice())
}

} // verus!
