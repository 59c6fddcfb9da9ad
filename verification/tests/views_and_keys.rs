use bevy::render::render_resource::PrimitiveTopology;
use bevy::sprite_render::Mesh2dPipelineKey;
use bevy_fast_mist::phase::{
    mesh_pipeline_key, view_pipeline_key, MeshMistBatchSetKey, MeshTopology,
};
use bevy_fast_mist::view::{is_live, live_views, CameraState, ViewKey};

#[test]
fn batch_set_key_reports_indexing() {
    assert!(MeshMistBatchSetKey::new(true).indexed());
    assert!(!MeshMistBatchSetKey::new(false).indexed());
    assert!(!MeshMistBatchSetKey::default().indexed());
    assert!(MeshMistBatchSetKey::new(false) < MeshMistBatchSetKey::new(true));
}

#[test]
fn view_key_holds_msaa_and_hdr() {
    assert_eq!(view_pipeline_key(4, true), (2 << 29) | 1);
    assert_eq!(view_pipeline_key(1, false), 0);
    assert_eq!(view_pipeline_key(8, false), 3 << 29);
    let expected = Mesh2dPipelineKey::from_msaa_samples(4) | Mesh2dPipelineKey::from_hdr(true);
    assert_eq!(view_pipeline_key(4, true), expected.bits());
}

#[test]
fn mesh_key_adds_topology_to_view_key() {
    let view = view_pipeline_key(4, false);
    assert_eq!(mesh_pipeline_key(view, MeshTopology::TriangleList), view | (3 << 26));
    assert_eq!(mesh_pipeline_key(view, MeshTopology::PointList), view);
    assert_eq!(mesh_pipeline_key(0, MeshTopology::TriangleStrip), 4 << 26);
    let expected = Mesh2dPipelineKey::from_bits_retain(view)
        | Mesh2dPipelineKey::from_primitive_topology(PrimitiveTopology::LineStrip);
    assert_eq!(mesh_pipeline_key(view, MeshTopology::LineStrip), expected.bits());
    let decoded = Mesh2dPipelineKey::from_bits_retain(mesh_pipeline_key(view, MeshTopology::LineList));
    assert_eq!(decoded.primitive_topology(), PrimitiveTopology::LineList);
    assert_eq!(decoded.msaa_samples(), 4);
}

#[test]
fn live_views_are_primary_views_of_active_cameras() {
    let cameras = vec![
        CameraState { entity: 7, is_active: true },
        CameraState { entity: 9, is_active: false },
        CameraState { entity: 3, is_active: true },
        CameraState { entity: 7, is_active: true },
    ];
    let live = live_views(&cameras);
    assert_eq!(live, vec![ViewKey::primary(7), ViewKey::primary(3)]);
    assert!(is_live(&live, &ViewKey { main_entity: 3, auxiliary_entity: None, subview_index: 0 }));
    assert!(!is_live(&live, &ViewKey::primary(9)));
    assert!(!is_live(&live, &ViewKey { main_entity: 7, auxiliary_entity: None, subview_index: 1 }));
    assert!(!is_live(&live, &ViewKey { main_entity: 7, auxiliary_entity: Some(3), subview_index: 0 }));
}

#[test]
fn no_active_camera_keeps_no_phase() {
    let cameras = vec![CameraState { entity: 1, is_active: false }];
    let live = live_views(&cameras);
    assert!(live.is_empty());
    assert!(!is_live(&live, &ViewKey::primary(1)));
    assert!(live_views(&Vec::new()).is_empty());
}
