use ptex::{
    BoundsKind, DataSize, DataType, EdgeFilterMode, EdgeId, EnumKind, Error, FaceInfo, MeshType,
    MetaDataType, OneValue, Res,
};

#[test]
fn ptex_res() {
    let res = Res::from_uv(3, 4);
    let base = 2_i32;
    assert_eq!(res.u(), base.pow(3));
    assert_eq!(res.v(), base.pow(4));

    let res = res.clone_swapped();
    assert_eq!(res.u(), base.pow(4));
    assert_eq!(res.v(), base.pow(3));

    let size = res.size();
    assert_eq!(size, base.pow(3 + 4) as usize);
    assert_eq!(size, base.pow(3 + 4) as usize);

    let mut res = res.clone();
    res.swap_uv();
    assert_eq!(res.u(), base.pow(3));
    assert_eq!(res.v(), base.pow(4));

    let clamp_res = Res::from_uv(1, 2);
    res.clamp(clamp_res);
    assert_eq!(res.u(), base.pow(1));
    assert_eq!(res.v(), base.pow(2));

    let res = Res::from_uv(3, 4);
    let tile_res = Res::from_uv(2, 2);
    let tilesu = res.ntilesu(tile_res);
    assert_eq!(tilesu, 2);

    let tilesv = res.ntilesv(tile_res);
    assert_eq!(tilesv, 4);

    let tiles = res.ntiles(tile_res);
    assert_eq!(tiles, 8);
}

#[test]
fn res_size_of_three_by_four() {
    assert_eq!(Res::from_uv_log2(3, 4).size(), 128);
    assert_eq!(Res::from_uv(0, 0).size(), 1);
}

#[test]
fn res_size_saturates() {
    assert_eq!(Res::from_uv(127, 127).size(), usize::MAX);
}

#[test]
fn res_tiles_round_up_for_larger_tiles() {
    let res = Res::from_uv(1, 5);
    let tile = Res::from_uv(3, 2);
    assert_eq!(res.ntilesu(tile), 1);
    assert_eq!(res.ntilesv(tile), 8);
    assert_eq!(res.ntiles(tile), 8);
}

#[test]
fn res_packed_value_layout() {
    let res = Res::from_value(0x0201);
    assert_eq!(res.ulog2, 1);
    assert_eq!(res.vlog2, 2);
    assert_eq!(res.value(), 0x0201);
    assert_eq!(Res::from_uv(3, 4).value(), 0x0403);
}

#[test]
fn res_packed_round_trip_with_negative_logs() {
    let res = Res::from_uv(-1, -128);
    assert_eq!(res.value(), 0x80ff);
    assert_eq!(Res::from_value(res.value()), res);
    for value in [0u16, 1, 0x00ff, 0x7f80, 0xffff, 0x1234] {
        assert_eq!(Res::from_value(value).value(), value);
    }
    for (u, v) in [(0i8, 0i8), (15, 15), (-1, 7), (127, -128)] {
        let r = Res::from_uv(u, v);
        assert_eq!(Res::from_value(r.value()), r);
    }
}

#[test]
fn res_swap_twice_is_identity() {
    for (u, v) in [(3i8, 4i8), (0, 9), (-2, 5)] {
        let r = Res::from_uv(u, v);
        assert_eq!(r.clone_swapped().clone_swapped(), r);
        let mut s = r;
        s.swap_uv();
        s.swap_uv();
        assert_eq!(s, r);
    }
}

#[test]
fn res_default_is_one_texel() {
    let r = Res::default();
    assert_eq!(r, Res::from_uv(0, 0));
    assert_eq!(r.size(), 1);
}

#[test]
fn face_info_set_adjacent_faces() {
    let mut face_info =
        FaceInfo::from_res_and_adjacency(Res::from_uv(2, 2), &[0, 0, 0, 0], &[0, 0, 0, 0], false)
            .unwrap();
    for edge in 0..4 {
        assert_eq!(face_info.adjacent_face(edge), Ok(0));
    }
    face_info.set_adjacent_faces(1, 2, 3, 4);
    assert_eq!(face_info.adjacent_face(0), Ok(1));
    assert_eq!(face_info.adjacent_face(1), Ok(2));
    assert_eq!(face_info.adjacent_face(2), Ok(3));
    assert_eq!(face_info.adjacent_face(3), Ok(4));
}

#[test]
fn face_info_new_has_no_neighbours() {
    let face_info = FaceInfo::new();
    for edge in 0..4 {
        assert_eq!(face_info.adjacent_face(edge), Ok(-1));
        assert_eq!(face_info.adjacent_edge(edge), Ok(EdgeId::Bottom));
    }
    assert_eq!(face_info.resolution(), Res::from_uv(0, 0));
    assert!(!face_info.has_edits());
    assert!(!face_info.is_constant());
    assert!(!face_info.is_neighborhood_constant());
    assert!(!face_info.is_subface());
}

#[test]
fn face_info_adjacency_from_edge_ordinals() {
    let face_info = FaceInfo::from_res_and_adjacency(
        Res::from_uv(8, 7),
        &[3, 1, -1, -1],
        &[2, 3, 0, 1],
        true,
    )
    .unwrap();
    assert_eq!(face_info.adjedges, 2 + 4 * 3 + 16 * 0 + 64 * 1);
    assert_eq!(face_info.adjacent_edge(0), Ok(EdgeId::Top));
    assert_eq!(face_info.adjacent_edge(1), Ok(EdgeId::Left));
    assert_eq!(face_info.adjacent_edge(2), Ok(EdgeId::Bottom));
    assert_eq!(face_info.adjacent_edge(3), Ok(EdgeId::Right));
    assert_eq!(face_info.adjacent_face(0), Ok(3));
    assert_eq!(face_info.adjacent_face(3), Ok(-1));
    assert!(face_info.is_subface());
    assert!(!face_info.is_constant());
    assert_eq!(face_info.resolution(), Res::from_uv(8, 7));
}

#[test]
fn face_info_set_adjacent_edges() {
    let mut face_info = FaceInfo::new();
    face_info.set_adjacent_edges(EdgeId::Left, EdgeId::Right, EdgeId::Top, EdgeId::Bottom);
    assert_eq!(face_info.adjacent_edge(0), Ok(EdgeId::Left));
    assert_eq!(face_info.adjacent_edge(1), Ok(EdgeId::Right));
    assert_eq!(face_info.adjacent_edge(2), Ok(EdgeId::Top));
    assert_eq!(face_info.adjacent_edge(3), Ok(EdgeId::Bottom));
    assert_eq!(face_info.adjacent_face(0), Ok(-1));
}

#[test]
fn face_info_set_resolution() {
    let mut face_info = FaceInfo::new();
    face_info.set_resolution(Res::from_uv_log2(3, 4));
    let res = face_info.resolution();
    assert_eq!(res.u(), 8);
    assert_eq!(res.v(), 16);
}

#[test]
fn face_info_flags() {
    let mut face_info = FaceInfo::new();
    face_info.flags = ptex::FLAG_CONSTANT | ptex::FLAG_NEIGHBORHOOD_CONSTANT;
    assert!(face_info.is_constant());
    assert!(face_info.is_neighborhood_constant());
    assert!(!face_info.has_edits());
    assert!(!face_info.is_subface());
    face_info.flags = ptex::FLAG_HAS_EDITS;
    assert!(face_info.has_edits());
    assert!(!face_info.is_constant());
}

#[test]
fn face_info_rejects_bad_edge_index() {
    let face_info = FaceInfo::new();
    assert_eq!(face_info.adjacent_edge(4), Err(Error::BoundsError(BoundsKind::Edge, 4)));
    assert_eq!(face_info.adjacent_face(-1), Err(Error::BoundsError(BoundsKind::Edge, -1)));
}

#[test]
fn face_info_rejects_bad_edge_ordinal() {
    let r = FaceInfo::from_res_and_adjacency(Res::from_uv(1, 1), &[0, 0, 0, 0], &[0, 3, 4, -1], false);
    assert_eq!(r.err(), Some(Error::InvalidEnum(EnumKind::EdgeId, 4)));
}

#[test]
fn funky_values_edge_id() {
    let left = EdgeId::Left.ordinal() as i32;
    let r = FaceInfo::from_res_and_adjacency(
        Res::from_uv(0, 0),
        &[0, 0, 0, 0],
        &[left + 1, left + 2, left + 3, left + 4],
        false,
    );
    assert_eq!(r.err(), Some(Error::InvalidEnum(EnumKind::EdgeId, 4)));
}

#[test]
fn enum_ordinals_round_trip() {
    for o in 0..2 {
        assert_eq!(MeshType::from_ordinal(o).unwrap().ordinal(), o);
        assert_eq!(EdgeFilterMode::from_ordinal(o).unwrap().ordinal(), o);
    }
    for o in 0..4 {
        assert_eq!(DataType::from_ordinal(o).unwrap().ordinal(), o);
        assert_eq!(EdgeId::from_ordinal(o).unwrap().ordinal(), o);
    }
    for o in 0..6 {
        assert_eq!(MetaDataType::from_ordinal(o).unwrap().ordinal(), o);
    }
    assert_eq!(MeshType::from_ordinal(0), Ok(MeshType::Triangle));
    assert_eq!(MeshType::from_ordinal(1), Ok(MeshType::Quad));
    assert_eq!(DataType::from_ordinal(2), Ok(DataType::Float16));
    assert_eq!(EdgeFilterMode::from_ordinal(0), Ok(EdgeFilterMode::NoTransform));
}

#[test]
fn enum_ordinals_past_the_end_are_rejected() {
    assert_eq!(MeshType::from_ordinal(2), Err(Error::InvalidEnum(EnumKind::MeshType, 2)));
    assert_eq!(DataType::from_ordinal(4), Err(Error::InvalidEnum(EnumKind::DataType, 4)));
    assert_eq!(ptex::BorderMode::from_ordinal(3), Err(Error::InvalidEnum(EnumKind::BorderMode, 3)));
    assert_eq!(
        EdgeFilterMode::from_ordinal(2),
        Err(Error::InvalidEnum(EnumKind::EdgeFilterMode, 2))
    );
    assert_eq!(EdgeId::from_ordinal(4), Err(Error::InvalidEnum(EnumKind::EdgeId, 4)));
    assert_eq!(
        MetaDataType::from_ordinal(6),
        Err(Error::InvalidEnum(EnumKind::MetaDataType, 6))
    );
}

#[test]
fn data_sizes_and_one_values() {
    assert_eq!(DataSize::get(DataType::UInt8), 1);
    assert_eq!(DataSize::get(DataType::UInt16), 2);
    assert_eq!(DataSize::get(DataType::Float16), 2);
    assert_eq!(DataSize::get(DataType::Float32), 4);
    assert_eq!(OneValue::get(DataType::UInt8), 255);
    assert_eq!(OneValue::get(DataType::UInt16), 65535);
    assert_eq!(OneValue::get(DataType::Float16), 1);
    assert_eq!(OneValue::get(DataType::Float32), 1);
}

#[test]
fn test_face_info_set_adjfaces() {
    let mut face_info =
        FaceInfo::from_res_and_adjacency(Res::from_uv(0, 0), &[0, 0, 0, 0], &[0, 0, 0, 0], false)
            .unwrap();
    assert_eq!(face_info.adjacent_face(0), Ok(0));
    assert_eq!(face_info.adjacent_face(1), Ok(0));
    assert_eq!(face_info.adjacent_face(2), Ok(0));
    assert_eq!(face_info.adjacent_face(3), Ok(0));

    face_info.set_adjacent_faces(1, 2, 3, 4);
    assert_eq!(face_info.adjacent_face(0), Ok(1));
    assert_eq!(face_info.adjacent_face(1), Ok(2));
    assert_eq!(face_info.adjacent_face(2), Ok(3));
    assert_eq!(face_info.adjacent_face(3), Ok(4));

    let mut face_info =
        FaceInfo::from_res_and_adjacency(Res::from_uv(0, 0), &[0, 0, 0, 0], &[0, 0, 0, 0], false)
            .unwrap();
    assert_eq!(face_info.adjacent_edge(0), Ok(EdgeId::Bottom));
    assert_eq!(face_info.adjacent_edge(1), Ok(EdgeId::Bottom));
    assert_eq!(face_info.adjacent_edge(2), Ok(EdgeId::Bottom));
    assert_eq!(face_info.adjacent_edge(3), Ok(EdgeId::Bottom));

    face_info.set_adjacent_edges(EdgeId::Left, EdgeId::Right, EdgeId::Top, EdgeId::Bottom);
    assert_eq!(face_info.adjacent_edge(0), Ok(EdgeId::Left));
    assert_eq!(face_info.adjacent_edge(1), Ok(EdgeId::Right));
    assert_eq!(face_info.adjacent_edge(2), Ok(EdgeId::Top));
    assert_eq!(face_info.adjacent_edge(3), Ok(EdgeId::Bottom));
}

#[test]
fn res_swapped_uv() {
    assert_eq!(Res::from_uv(3, 4).swapped_uv(), Res::from_uv(4, 3));
}
