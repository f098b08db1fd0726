use f3d::codec::OwnedRecord;
use f3d::codec::SentinelList;
use f3d::engine::Engine;
use f3d::engine::EngineBackend;
use f3d::engine::EngineContext;
use f3d::engine::EngineError;
use f3d::engine::RawBackendEntry;
use f3d::engine::RawLibInfo;
use f3d::engine::RawModuleInfo;
use f3d::engine::RawReaderInfo;
use f3d::scene::F3DLightState;
use f3d::scene::F3DLightType;
use f3d::scene::F3DMesh;
use f3d::scene::SceneError;
use f3d::text::MarshalError;

fn engine() -> Engine {
    Engine::new(EngineBackend::Auto { offscreen: false }, EngineContext::Internal).unwrap()
}

fn light(intensity: f64) -> F3DLightState {
    F3DLightState {
        type_: F3DLightType::SceneLight,
        position: [(1.0f64).to_bits(), (2.0f64).to_bits(), (3.0f64).to_bits()],
        color: [(1.0f64).to_bits(), (1.0f64).to_bits(), (1.0f64).to_bits()],
        direction: [(0.0f64).to_bits(), (0.0f64).to_bits(), (-1.0f64).to_bits()],
        positional_light: true,
        intensity: intensity.to_bits(),
        switch_state: true,
    }
}

#[test]
fn factory_accepts_valid_pairs_and_rejects_invalid_ones() {
    assert!(Engine::new(EngineBackend::Auto { offscreen: true }, EngineContext::Internal).is_ok());
    assert!(Engine::new(EngineBackend::NoRender, EngineContext::Internal).is_ok());
    assert!(Engine::new(EngineBackend::Egl, EngineContext::Internal).is_ok());
    assert!(Engine::new(EngineBackend::Omesa, EngineContext::Internal).is_ok());
    assert!(
        Engine::new(EngineBackend::Glx { offscreen: false }, EngineContext::ExternalPlatform)
            .is_ok()
    );
    assert!(Engine::new(EngineBackend::Cocoa, EngineContext::ExternalPlatform).is_ok());

    assert_eq!(
        Engine::new(EngineBackend::Cocoa, EngineContext::Internal).err(),
        Some(EngineError::InvalidBackendContext)
    );
    assert_eq!(
        Engine::new(EngineBackend::Auto { offscreen: false }, EngineContext::ExternalPlatform)
            .err(),
        Some(EngineError::InvalidBackendContext)
    );
    assert_eq!(
        Engine::new(EngineBackend::NoRender, EngineContext::ExternalPlatform).err(),
        Some(EngineError::InvalidBackendContext)
    );
}

#[test]
fn offscreen_flag_reaches_the_window() {
    let mut on = Engine::new(EngineBackend::Auto { offscreen: true }, EngineContext::Internal)
        .unwrap();
    assert!(on.window().is_offscreen());
    let mut off = Engine::new(EngineBackend::Glx { offscreen: false }, EngineContext::Internal)
        .unwrap();
    assert!(!off.window().is_offscreen());
    let mut egl = Engine::new(EngineBackend::Egl, EngineContext::Internal).unwrap();
    assert!(egl.window().is_offscreen());
}

#[test]
fn window_state_round_trips_through_the_view() {
    let mut e = engine();
    let w = e.window();
    w.set_size(800, 600);
    assert_eq!(w.width(), 800);
    assert_eq!(w.height(), 600);
    w.set_position(10, 20);
    assert!(w.set_title(b"Hello from the host").is_ok());
    assert_eq!(w.set_title(b"bad\0title"), Err(MarshalError::EmbeddedTerminator));
    w.set_icon(&[1, 2, 3, 4]);
    assert!(w.render());
    // a later borrow of the root sees the same shared state
    assert_eq!(e.window().width(), 800);
}

#[test]
fn options_view_shares_the_root_state() {
    let mut e = engine();
    e.options().set_bool(b"render.grid.enable", true).unwrap();
    assert_eq!(e.options().get_bool(b"render.grid.enable"), Ok(true));
}

#[test]
fn scene_add_and_clear() {
    let mut e = engine();
    let s = e.scene();
    s.add(b"model.vtu").unwrap();
    assert_eq!(s.add(b"bad\0path.vtu"), Err(MarshalError::EmbeddedTerminator));
    s.add_multiple(&vec![b"a.obj".to_vec(), b"b.obj".to_vec()]).unwrap();
    assert_eq!(
        s.add_multiple(&vec![b"ok.obj".to_vec(), b"no\0pe.obj".to_vec()]),
        Err(MarshalError::EmbeddedTerminator)
    );
    s.add_buffer(&[0u8; 16]);
    s.clear();
}

#[test]
fn mesh_marshals_with_exact_counts() {
    let mesh = F3DMesh {
        points: vec![(0.0f32).to_bits(), (1.0f32).to_bits(), (0.0f32).to_bits()],
        normals: Vec::new(),
        texture_coordinates: Vec::new(),
        face_sides: vec![3],
        face_indices: vec![0, 1, 2],
    };
    let raw = mesh.as_raw();
    assert_eq!(raw.points_count, 3);
    assert_eq!(raw.normals_count, 0);
    assert_eq!(raw.texture_coordinates_count, 0);
    assert_eq!(raw.face_sides_count, 1);
    assert_eq!(raw.face_indices_count, 3);
    assert_eq!(raw.points, mesh.points);

    let mut e = engine();
    e.scene().add_mesh(&mesh);
}

#[test]
fn lights_are_managed_by_index() {
    let mut e = engine();
    let s = e.scene();
    assert_eq!(s.get_light_count(), 0);
    let i0 = s.add_light(light(1.0));
    let i1 = s.add_light(light(2.0));
    assert_eq!((i0, i1), (0, 1));
    assert_eq!(s.get_light_count(), 2);

    let got = s.get_light(1).unwrap();
    assert!(got.equals(&light(2.0)));
    assert!(s.get_light(2).is_none());
    assert!(s.get_light(-1).is_none());

    s.update_light(0, light(5.0)).unwrap();
    assert!(s.get_light(0).unwrap().equals(&light(5.0)));
    assert_eq!(s.update_light(9, light(0.0)), Err(SceneError::LightIndexOutOfRange));

    s.remove_light(0).unwrap();
    assert_eq!(s.get_light_count(), 1);
    assert!(s.get_light(0).unwrap().equals(&light(2.0)));
    assert_eq!(s.remove_light(5), Err(SceneError::LightIndexOutOfRange));

    s.remove_all_lights();
    assert_eq!(s.get_light_count(), 0);
}

#[test]
fn supports_consults_the_reader_catalog() {
    let mut e = engine();
    let s = e.scene();
    s.install_reader_extensions(vec![b"vtu".to_vec(), b"obj".to_vec()]);
    assert_eq!(s.supports(b"dragon.vtu"), Ok(true));
    assert_eq!(s.supports(b"dragon.obj"), Ok(true));
    assert_eq!(s.supports(b"dragon.stl"), Ok(false));
    assert_eq!(s.supports(b"vtu"), Ok(false));
    assert_eq!(s.supports(b"bad\0.vtu"), Err(MarshalError::EmbeddedTerminator));
}

#[test]
fn animation_state_of_loaded_content() {
    let mut e = engine();
    let s = e.scene();
    assert_eq!(s.animation_time_range(), (0, 0));
    assert_eq!(s.available_animations(), 0);
    let range = ((0.0f64).to_bits(), (4.5f64).to_bits());
    s.install_animation_info(range, 2);
    assert_eq!(s.animation_time_range(), range);
    assert_eq!(s.available_animations(), 2);
    s.load_animation_time((1.25f64).to_bits());
}

#[test]
fn light_type_raw_round_trip() {
    for v in 1..4u32 {
        assert_eq!(F3DLightType::from_raw(v).unwrap().to_raw(), v);
    }
    assert!(F3DLightType::from_raw(0).is_none());
    assert!(F3DLightType::from_raw(4).is_none());
}

#[test]
fn camera_pose_round_trips() {
    let mut e = engine();
    let c = e.camera();
    let pos = [(1.0f64).to_bits(), (2.0f64).to_bits(), (3.0f64).to_bits()];
    c.set_position(pos);
    assert_eq!(c.get_position(), pos);
    c.set_view_angle((30.0f64).to_bits());
    assert_eq!(c.get_view_angle(), (30.0f64).to_bits());
    c.set_current_as_default();
    c.set_position([(9.0f64).to_bits(); 3]);
    c.reset_to_default();
    assert_eq!(c.get_position(), pos);
    let st = c.get_state();
    assert_eq!(st.position, pos);
}

#[test]
fn engine_level_settings() {
    let mut e = engine();
    e.auto_load_plugins();
    e.set_cache_path(b"/tmp/cache").unwrap();
    assert_eq!(e.set_cache_path(b"bad\0cache"), Err(MarshalError::EmbeddedTerminator));
    e.load_plugin(b"libf3d-module-draco").unwrap();
    assert_eq!(e.load_plugin(b"bad\0plugin"), Err(MarshalError::EmbeddedTerminator));
    e.set_reader_option(b"STL.binary", b"1").unwrap();
    assert_eq!(e.set_reader_option(b"a\0b", b"1"), Err(MarshalError::EmbeddedTerminator));
    e.delete();
}

#[test]
fn rendering_backends_decode_and_release() {
    let slots = vec![
        Some(RawBackendEntry { name: b"glx\0".to_vec(), available: 1 }),
        Some(RawBackendEntry { name: b"egl\0".to_vec(), available: 0 }),
        None,
    ];
    let mut list = SentinelList::new(slots);
    let backends = Engine::get_rendering_backends(&mut list);
    assert_eq!(backends, vec![(b"glx".to_vec(), true), (b"egl".to_vec(), false)]);
    assert!(list.was_released());

    let mut null_list: SentinelList<RawBackendEntry> = SentinelList::null();
    assert!(Engine::get_rendering_backends(&mut null_list).is_empty());
    assert!(!null_list.was_released());
}

#[test]
fn plugins_list_decodes_and_releases() {
    let mut list = SentinelList::new(vec![
        Some(b"alembic\0".to_vec()),
        Some(b"draco\0".to_vec()),
        None,
    ]);
    let names = Engine::get_plugins_list(b"/usr/lib/f3d-plugins", &mut list).unwrap();
    assert_eq!(names, vec![b"alembic".to_vec(), b"draco".to_vec()]);
    assert!(list.was_released());

    // a rejected path touches nothing: no foreign call, no release
    let mut other = SentinelList::new(vec![Some(b"x\0".to_vec()), None]);
    assert_eq!(
        Engine::get_plugins_list(b"bad\0dir", &mut other),
        Err(MarshalError::EmbeddedTerminator)
    );
    assert!(!other.was_released());
}

#[test]
fn reader_option_names_decode_and_release() {
    let mut list = SentinelList::new(vec![Some(b"STL.binary\0".to_vec()), None]);
    let names = Engine::get_all_reader_option_names(&mut list);
    assert_eq!(names, vec![b"STL.binary".to_vec()]);
    assert!(list.was_released());
}

#[test]
fn lib_info_deep_copies_and_releases() {
    let raw = RawLibInfo {
        version: Some(b"3.0.0\0".to_vec()),
        version_full: Some(b"3.0.0-g0000000\0".to_vec()),
        build_date: None,
        build_system: Some(b"Linux\0".to_vec()),
        compiler: Some(b"GCC\0".to_vec()),
        modules: RawModuleInfo { name: Some(b"raytracing\0".to_vec()), available: 1 },
        vtk_version: Some(b"9.3\0".to_vec()),
        copyrights: vec![Some(b"c1\0".to_vec()), Some(b"c2\0".to_vec()), None],
        license: None,
    };
    let mut rec = OwnedRecord::new(raw);
    let info = Engine::get_lib_info(&mut rec).unwrap();
    assert_eq!(info.version, b"3.0.0".to_vec());
    assert_eq!(info.version_full, b"3.0.0-g0000000".to_vec());
    assert_eq!(info.build_date, Vec::<u8>::new());
    assert_eq!(info.build_system, b"Linux".to_vec());
    assert_eq!(info.compiler, b"GCC".to_vec());
    assert_eq!(info.modules.name, b"raytracing".to_vec());
    assert!(info.modules.available);
    assert_eq!(info.vtk_version, b"9.3".to_vec());
    assert_eq!(info.copyrights, vec![b"c1".to_vec(), b"c2".to_vec()]);
    assert_eq!(info.license, Vec::<u8>::new());
    assert!(rec.was_released());

    let mut null_rec: OwnedRecord<RawLibInfo> = OwnedRecord::null();
    assert!(Engine::get_lib_info(&mut null_rec).is_none());
    assert!(!null_rec.was_released());
}

#[test]
fn readers_info_deep_copies_and_releases() {
    let reader = RawReaderInfo {
        name: Some(b"VTU\0".to_vec()),
        description: Some(b"VTK unstructured grid\0".to_vec()),
        extensions: vec![Some(b"vtu\0".to_vec()), None],
        mime_types: vec![Some(b"application/vnd.vtu\0".to_vec()), None],
        plugin_name: None,
        has_scene_reader: 0,
        has_geometry_reader: 1,
    };
    let mut list = SentinelList::new(vec![Some(reader), None]);
    let readers = Engine::get_readers_info(&mut list);
    assert_eq!(readers.len(), 1);
    assert_eq!(readers[0].name, b"VTU".to_vec());
    assert_eq!(readers[0].description, b"VTK unstructured grid".to_vec());
    assert_eq!(readers[0].extensions, vec![b"vtu".to_vec()]);
    assert_eq!(readers[0].mime_types, vec![b"application/vnd.vtu".to_vec()]);
    assert_eq!(readers[0].plugin_name, Vec::<u8>::new());
    assert_eq!(readers[0].has_scene_reader, 0);
    assert_eq!(readers[0].has_geometry_reader, 1);
    assert!(list.was_released());
}
