use basalt::frame::{step, FrameAction, FrameEvent, FramePhase};
use basalt::grid::spiral;
use basalt::instance::{InstanceSet, INSTANCE_RECORD_BYTES};
use basalt::layout::INSTANCE_WORDS;
use basalt::model::{Model, RawMesh};
use basalt::surface::{Extent, RenderTargets, SurfaceConfig};

fn hex_mesh() -> RawMesh {
    let f = |v: &[f32]| v.iter().map(|x| x.to_bits()).collect::<Vec<u32>>();
    RawMesh {
        name: "basic_hex".to_string(),
        positions: f(&[0.0, 0.0, 0.0, 1.0, 0.0, 0.0, 0.5, 0.0, 0.8]),
        texcoords: f(&[0.5, 0.5, 1.0, 0.5, 0.75, 1.0]),
        normals: f(&[0.0, 1.0, 0.0, 0.0, 1.0, 0.0, 0.0, 1.0, 0.0]),
        indices: vec![0, 2, 1],
        material_id: Some(0),
    }
}

#[test]
fn frame_of_hex_field_at_800_by_600() {
    let config = SurfaceConfig::new(&vec![false, true], 1, 1, Extent::new(800, 600)).unwrap();
    let targets = RenderTargets::new(config);
    assert_eq!(targets.camera.depth, Extent::new(800, 600));

    let model = Model::from_parts(vec![hex_mesh()], vec!["hex_material"]).unwrap();
    assert_eq!((model.meshes.len(), model.materials.len()), (1, 1));

    let mut instances = InstanceSet::new();
    for (i, cell) in spiral(2).iter().enumerate() {
        let mut record = [0u32; INSTANCE_WORDS];
        record[12] = cell.q() as u32;
        record[14] = cell.r() as u32;
        record[18] = i as u32;
        instances.push(record);
    }
    assert_eq!(instances.len(), 19);
    assert_eq!(instances.upload().len(), 19 * INSTANCE_RECORD_BYTES);

    let (phase, action) = step(FramePhase::Idle, FrameEvent::Tick);
    assert_eq!(action, FrameAction::AcquireImage);
    let (phase, action) = step(phase, FrameEvent::Acquired);
    assert_eq!(action, FrameAction::RecordPass);

    let draws = model.plan_draws(instances.len() as u32);
    assert_eq!(draws.len(), 1);
    assert_eq!(draws[0].instance_count, 19);
    assert_eq!(draws[0].index_count, 3);

    let (phase, action) = step(phase, FrameEvent::PassRecorded);
    assert_eq!(action, FrameAction::SubmitCommands);
    let (phase, action) = step(phase, FrameEvent::CommandsSubmitted);
    assert_eq!(action, FrameAction::ResolveAndPresent);
    let (phase, _) = step(phase, FrameEvent::ImagePresented);
    assert_eq!(phase, FramePhase::Idle);
}
