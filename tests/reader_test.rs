use ptex::{Cache, Error, Header, Texture, BoundsKind, EnumKind, FaceInfo, Res};

#[test]
fn reader_test_cache_search_path() {
    let mut cache = Cache::new(0, 0, false);

    let search_path = cache.search_path();
    assert_eq!("", search_path);

    cache.set_search_path("/tmp:/tmp/ptex");
    let search_path = cache.search_path();
    assert_eq!("/tmp:/tmp/ptex", search_path);
}

#[test]
fn reader_test_test_cache_search_path() {
    let mut cache = Cache::new(0, 0, false);

    let search_path = cache.search_path();
    assert_eq!("", search_path);

    cache.set_search_path("/tmp:/tmp/ptex");
    let search_path = cache.search_path();
    assert_eq!("/tmp:/tmp/ptex", search_path);
}

#[test]
fn search_dirs_skip_empty_entries() {
    let mut cache = Cache::new(0, 0, false);
    assert!(cache.search_dirs().is_empty());
    cache.set_search_path(":/tmp::/tmp/ptex:");
    assert_eq!(cache.search_dirs(), vec!["/tmp".to_string(), "/tmp/ptex".to_string()]);
    cache.set_search_path("assets");
    assert_eq!(cache.search_dirs(), vec!["assets".to_string()]);
}

#[test]
fn candidates_join_search_dirs() {
    let mut cache = Cache::new(0, 0, false);
    assert!(cache.candidates("a.ptx").is_empty());
    cache.set_search_path("/tmp:/tmp/ptex");
    assert_eq!(
        cache.candidates("a.ptx"),
        vec!["/tmp/a.ptx".to_string(), "/tmp/ptex/a.ptx".to_string()]
    );
    assert!(cache.candidates("/abs/a.ptx").is_empty());
}

#[test]
fn resolve_takes_first_existing_candidate() {
    let mut cache = Cache::new(0, 0, false);
    assert_eq!(cache.resolve("tests/fixtures/test.ptx", &[]), Ok("tests/fixtures/test.ptx".to_string()));
    cache.set_search_path("/tmp:/tmp/ptex:/data");
    assert_eq!(cache.resolve("a.ptx", &[false, true, true]), Ok("/tmp/ptex/a.ptx".to_string()));
    assert_eq!(cache.resolve("/abs/a.ptx", &[]), Ok("/abs/a.ptx".to_string()));
    assert_eq!(
        cache.resolve("a.ptx", &[false, false]),
        Err(Error::OpenFailed("a.ptx".to_string(), "can't find ptex file: a.ptx".to_string()))
    );
}

#[test]
fn cache_hit_returns_the_held_handle() {
    let mut cache = Cache::new(2, 0, false);
    assert_eq!(cache.lookup("/a.ptx"), None);
    assert_eq!(cache.insert("/a.ptx", 7, 100), (7, vec![]));
    assert_eq!(cache.lookup("/a.ptx"), Some(7));
    assert_eq!(cache.memory_in_use(), 100);
    assert!(cache.release("/a.ptx"));
    assert!(cache.release("/a.ptx"));
    assert!(!cache.release("/a.ptx"));
    assert!(!cache.release("/b.ptx"));
}

#[test]
fn cache_single_file_reopens_after_eviction() {
    let mut cache = Cache::new(1, 0, false);
    assert_eq!(cache.lookup("/a.ptx"), None);
    assert_eq!(cache.insert("/a.ptx", 1, 10), (1, vec![]));
    assert!(cache.release("/a.ptx"));
    assert_eq!(cache.lookup("/b.ptx"), None);
    assert_eq!(cache.insert("/b.ptx", 2, 10), (2, vec![1]));
    assert_eq!(cache.lookup("/a.ptx"), None);
    assert_eq!(cache.memory_in_use(), 10);
}

#[test]
fn cache_never_closes_a_borrowed_texture() {
    let mut cache = Cache::new(1, 0, false);
    assert_eq!(cache.insert("/a.ptx", 1, 10), (1, vec![]));
    assert_eq!(cache.insert("/b.ptx", 2, 10), (2, vec![]));
    assert_eq!(cache.lookup("/a.ptx"), Some(1));
    assert!(cache.release("/a.ptx"));
    assert!(cache.release("/a.ptx"));
    assert!(cache.release("/b.ptx"));
    // both idle now and over the limit: the next texture closes the least recently used
    assert_eq!(cache.insert("/c.ptx", 3, 10), (3, vec![2, 1]));
}

#[test]
fn cache_memory_limit_closes_idle_textures() {
    let mut cache = Cache::new(10, 100, true);
    assert_eq!(cache.insert("/a.ptx", 1, 60), (1, vec![]));
    assert!(cache.release("/a.ptx"));
    assert_eq!(cache.insert("/b.ptx", 2, 60), (2, vec![1]));
    assert_eq!(cache.memory_in_use(), 60);
}

#[test]
fn cache_insert_of_held_path_closes_new_handle() {
    let mut cache = Cache::new(0, 0, false);
    assert_eq!(cache.insert("/a.ptx", 1, 10), (1, vec![]));
    assert_eq!(cache.insert("/a.ptx", 5, 10), (1, vec![5]));
    assert_eq!(cache.lookup("/a.ptx"), Some(1));
    assert_eq!(cache.memory_in_use(), 10);
}

#[test]
fn open_failed_message() {
    assert_eq!(
        Error::open_failed("x.ptx", ""),
        Error::OpenFailed("x.ptx".to_string(), "can't open ptex file: x.ptx".to_string())
    );
    assert_eq!(
        Error::open_failed("x.ptx", "bad magic"),
        Error::OpenFailed("x.ptx".to_string(), "bad magic".to_string())
    );
}

fn header() -> Header {
    Header::from_ordinals(1, 1, 3, -1, 0, 0, 0, false, true).unwrap()
}

#[test]
fn texture_reports_its_header() {
    let faces = vec![FaceInfo::new(); 9];
    let texture = Texture::new("tests/fixtures/test.ptx", 4, header(), faces);
    assert!(!texture.is_null());
    assert_eq!(texture.handle(), Some(4));
    assert_eq!(texture.alpha_channel(), -1);
    assert_eq!(texture.num_channels(), 3);
    assert_eq!(texture.num_faces(), 9);
    assert!(!texture.has_edits());
    assert!(texture.has_mip_maps());
    assert_eq!(texture.path(), "tests/fixtures/test.ptx");
    assert_eq!(texture.mesh_type(), ptex::MeshType::Quad);
    assert_eq!(texture.data_type(), ptex::DataType::UInt16);
    assert_eq!(texture.edge_filter_mode(), ptex::EdgeFilterMode::NoTransform);
    assert_eq!(texture.border_mode_u(), ptex::BorderMode::Clamp);
    assert_eq!(texture.border_mode_v(), ptex::BorderMode::Clamp);
}

#[test]
fn texture_face_info_bounds() {
    let mut faces = vec![FaceInfo::new(); 2];
    faces[1].set_resolution(Res::from_uv(3, 4));
    let texture = Texture::unbound("t.ptx", header(), faces);
    assert!(texture.is_null());
    assert_eq!(texture.face_info(1).unwrap().resolution(), Res::from_uv(3, 4));
    assert_eq!(texture.face_info(2).err(), Some(Error::BoundsError(BoundsKind::FaceId, 2)));
    assert_eq!(texture.face_info(-1).err(), Some(Error::BoundsError(BoundsKind::FaceId, -1)));
}

#[test]
fn funky_values_border_modes() {
    let periodic = ptex::BorderMode::Periodic.ordinal();
    assert_eq!(
        Header::from_ordinals(1, 0, 3, -1, periodic + 1, periodic + 1, 0, false, false),
        Err(Error::InvalidEnum(EnumKind::BorderMode, 3))
    );
}

#[test]
fn funky_values_edge_filter_mode() {
    let tangent = ptex::EdgeFilterMode::TangentVector.ordinal();
    assert_eq!(
        Header::from_ordinals(1, 0, 3, -1, 0, 0, tangent + 1, false, false),
        Err(Error::InvalidEnum(EnumKind::EdgeFilterMode, 2))
    );
}

#[test]
fn header_rejects_first_bad_ordinal() {
    assert_eq!(
        Header::from_ordinals(2, 9, 3, -1, 0, 0, 0, false, false),
        Err(Error::InvalidEnum(EnumKind::MeshType, 2))
    );
    assert_eq!(
        Header::from_ordinals(0, 9, 3, -1, 0, 0, 0, false, false),
        Err(Error::InvalidEnum(EnumKind::DataType, 9))
    );
}

#[test]
fn pixel_request_checks_and_clamps() {
    let mut faces = vec![FaceInfo::new(); 2];
    faces[1].set_resolution(Res::from_uv(2, 1));
    let texture = Texture::new("t.ptx", 1, header(), faces);
    let r = texture.pixel_request(1, 3, 1, 1, 5).unwrap();
    assert_eq!(
        r,
        ptex::PixelRequest { face_id: 1, u: 3, v: 1, first_channel: 1, num_channels: 2 }
    );
    let r = texture.pixel_request(1, 0, 0, -1, 2).unwrap();
    assert_eq!((r.first_channel, r.num_channels), (0, 1));
    assert_eq!(
        texture.pixel_request(2, 0, 0, 0, 1),
        Err(Error::BoundsError(BoundsKind::FaceId, 2))
    );
    assert_eq!(
        texture.pixel_request(1, 4, 0, 0, 1),
        Err(Error::BoundsError(BoundsKind::Texel, 4))
    );
    assert_eq!(
        texture.pixel_request(1, 0, 2, 0, 1),
        Err(Error::BoundsError(BoundsKind::Texel, 2))
    );
    assert_eq!(
        texture.pixel_request(0, 0, 0, 3, 1),
        Err(Error::BoundsError(BoundsKind::Channel, 3))
    );
}
