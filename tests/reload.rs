use doggy_park::artifact::{BuildOutcome, CompiledArtifact};
use doggy_park::constants::{ShaderConstants, SHADER_CONSTANTS_SIZE};
use doggy_park::pipeline::{DrawCall, FrameError, FrameErrorAction, PipelineManager, SurfaceConfig};
use doggy_park::slot::ArtifactSlot;
use doggy_park::trigger::RebuildTrigger;
use doggy_park::worker::{BuildReport, BuildWorker};

fn artifact(tag: u8) -> CompiledArtifact {
    CompiledArtifact::new(vec![tag, tag, tag, 0x07], "main_vs".to_string(), "main_fs".to_string())
}

#[test]
fn burst_of_three_changes_gives_one_signal_at_seven_seconds() {
    let mut trigger = RebuildTrigger::new(5_000);
    trigger.on_change(0);
    assert!(!trigger.poll(500));
    trigger.on_change(1_000);
    trigger.on_change(2_000);
    assert!(!trigger.poll(4_000));
    assert!(!trigger.poll(6_999));
    assert!(trigger.poll(7_000));
    assert!(!trigger.poll(7_001));
    assert!(!trigger.poll(60_000));
    assert_eq!(trigger.next_deadline(), None);
}

#[test]
fn full_scenario_build_publish_and_take_once() {
    let mut worker = BuildWorker::new(5_000);
    let mut slot = ArtifactSlot::new();
    let mut manager = PipelineManager::new(0u32, 800, 600);
    worker.on_change(0);
    worker.on_change(1_000);
    worker.on_change(2_000);
    assert_eq!(worker.next_deadline(), Some(7_000));
    assert!(!worker.on_tick(6_000));
    assert!(worker.on_tick(7_000));
    assert!(worker.is_building());
    let (report, again) = worker.finish_build(&mut slot, BuildOutcome::Success(artifact(0xA)));
    assert_eq!(report, BuildReport::Published(4));
    assert!(!again);
    assert!(!worker.is_building());
    assert!(!slot.is_empty());

    let plan = manager.begin_frame(&mut slot);
    assert_eq!(plan.configure, Some(SurfaceConfig { width: 800, height: 600 }));
    assert_eq!(plan.artifact, Some(artifact(0xA)));
    assert_eq!(manager.adopt(artifact(0xA), Ok(1u32)), Ok(()));
    assert_eq!(*manager.active_pipeline(), 1);
    assert!(manager.has_adopted());

    let plan = manager.begin_frame(&mut slot);
    assert_eq!(plan.configure, None);
    assert_eq!(plan.artifact, None);
    assert_eq!(slot.take(), None);
}

#[test]
fn failed_compile_keeps_fallback_pipeline_drawing() {
    let mut worker = BuildWorker::new(5_000);
    let mut slot = ArtifactSlot::new();
    let mut manager = PipelineManager::new(0u32, 640, 480);
    let _ = manager.begin_frame(&mut slot);
    let before = manager.draw_call(100);

    worker.on_change(5_000);
    assert!(worker.on_tick(10_000));
    let (report, again) =
        worker.finish_build(&mut slot, BuildOutcome::Failure("error: expected `;`".to_string()));
    assert_eq!(report, BuildReport::Failed("error: expected `;`".to_string()));
    assert!(!again);
    assert!(slot.is_empty());

    let plan = manager.begin_frame(&mut slot);
    assert_eq!(plan.artifact, None);
    assert_eq!(*manager.active_pipeline(), 0);
    assert!(!manager.has_adopted());
    assert_eq!(manager.draw_call(100), before);
}

#[test]
fn failed_compile_leaves_pending_artifact_in_place() {
    let mut worker = BuildWorker::new(10);
    let mut slot = ArtifactSlot::new();
    slot.publish(artifact(1));
    let _ = worker.finish_build(&mut slot, BuildOutcome::Failure("boom".to_string()));
    assert_eq!(slot.take(), Some(artifact(1)));
}

#[test]
fn back_to_back_publishes_deliver_only_the_latest() {
    let mut slot = ArtifactSlot::new();
    slot.publish(artifact(0xA));
    slot.publish(artifact(0xB));
    assert_eq!(slot.take(), Some(artifact(0xB)));
    assert_eq!(slot.take(), None);
}

#[test]
fn publish_between_takes_is_seen_by_next_take() {
    let mut slot = ArtifactSlot::new();
    assert_eq!(slot.take(), None);
    slot.publish(artifact(1));
    assert_eq!(slot.take(), Some(artifact(1)));
    slot.publish(artifact(2));
    assert_eq!(slot.take(), Some(artifact(2)));
    assert!(slot.is_empty());
}

#[test]
fn multiple_resizes_in_one_frame_last_one_wins() {
    let mut slot = ArtifactSlot::new();
    let mut manager = PipelineManager::new(0u32, 800, 600);
    let _ = manager.begin_frame(&mut slot);
    manager.resize(1024, 768);
    manager.resize(300, 200);
    manager.resize(1920, 1080);
    assert_eq!(manager.draw_call(0), None);
    let plan = manager.begin_frame(&mut slot);
    assert_eq!(plan.configure, Some(SurfaceConfig { width: 1920, height: 1080 }));
    let draw = manager.draw_call(7).unwrap();
    assert_eq!(
        draw,
        DrawCall {
            vertex_count: 3,
            instance_count: 1,
            constants: ShaderConstants { width_px: 1920, height_px: 1080, time_bits: 7 },
        }
    );
}

#[test]
fn frame_errors_map_to_actions() {
    let mut slot = ArtifactSlot::new();
    let mut manager = PipelineManager::new(0u32, 100, 50);
    let _ = manager.begin_frame(&mut slot);
    assert_eq!(manager.on_frame_error(FrameError::Other), FrameErrorAction::Skip);
    assert!(manager.draw_call(0).is_some());
    assert_eq!(manager.on_frame_error(FrameError::OutOfMemory), FrameErrorAction::Exit);
    assert_eq!(manager.on_frame_error(FrameError::Lost), FrameErrorAction::Recreate);
    assert_eq!(manager.draw_call(0), None);
    let plan = manager.begin_frame(&mut slot);
    assert_eq!(plan.configure, Some(SurfaceConfig { width: 100, height: 50 }));
}

#[test]
fn failed_pipeline_build_keeps_active_pipeline() {
    let mut slot = ArtifactSlot::new();
    let mut manager = PipelineManager::new(0u32, 100, 50);
    slot.publish(artifact(3));
    let plan = manager.begin_frame(&mut slot);
    let a = plan.artifact.unwrap();
    assert_eq!(manager.adopt(a, Err("missing entry point".to_string())), Err("missing entry point".to_string()));
    assert_eq!(*manager.active_pipeline(), 0);
    assert!(!manager.has_adopted());
    assert_eq!(manager.surface_config(), SurfaceConfig { width: 100, height: 50 });
}

#[test]
fn signal_during_build_schedules_exactly_one_more() {
    let mut worker = BuildWorker::new(100);
    let mut slot = ArtifactSlot::new();
    worker.on_change(0);
    assert!(worker.on_tick(100));
    worker.on_change(150);
    assert!(!worker.on_tick(250));
    worker.on_change(300);
    assert!(!worker.on_tick(400));
    let (_, again) = worker.finish_build(&mut slot, BuildOutcome::Success(artifact(1)));
    assert!(again);
    assert!(worker.is_building());
    let (_, again) = worker.finish_build(&mut slot, BuildOutcome::Success(artifact(2)));
    assert!(!again);
    assert!(!worker.is_building());
    assert_eq!(slot.take(), Some(artifact(2)));
}

#[test]
fn spread_out_changes_each_settle_separately() {
    let mut trigger = RebuildTrigger::new(5_000);
    trigger.on_change(0);
    assert!(trigger.poll(5_000));
    trigger.on_change(20_000);
    assert!(!trigger.poll(24_999));
    assert!(trigger.poll(25_000));
    assert!(!trigger.poll(30_000));
}

#[test]
fn deadline_saturates_at_end_of_clock() {
    let mut trigger = RebuildTrigger::new(5_000);
    trigger.on_change(u64::MAX - 10);
    assert_eq!(trigger.next_deadline(), Some(u64::MAX));
    assert!(!trigger.poll(u64::MAX - 1));
    assert!(trigger.poll(u64::MAX));
    assert_eq!(trigger.window_ms(), 5_000);
}

#[test]
fn constants_encode_to_twelve_bytes() {
    let c = ShaderConstants::new(1920, 1080, 1.5f32.to_bits());
    let bytes = c.to_bytes();
    assert_eq!(SHADER_CONSTANTS_SIZE, 12);
    assert_eq!(bytes, vec![0x80, 0x07, 0x00, 0x00, 0x38, 0x04, 0x00, 0x00, 0x00, 0x00, 0xC0, 0x3F]);
    let big = ShaderConstants::new(0x0102_0304, u32::MAX, 0);
    assert_eq!(
        big.to_bytes(),
        vec![0x04, 0x03, 0x02, 0x01, 0xFF, 0xFF, 0xFF, 0xFF, 0x00, 0x00, 0x00, 0x00]
    );
}

#[test]
fn artifact_size_counts_code_bytes() {
    assert_eq!(artifact(9).size(), 4);
    let empty = CompiledArtifact::new(Vec::new(), "v".to_string(), "f".to_string());
    assert_eq!(empty.size(), 0);
}

#[test]
fn spirv_header_is_checked() {
    let good = CompiledArtifact::new(vec![0x03, 0x02, 0x23, 0x07, 0, 0, 1, 0], "v".to_string(), "f".to_string());
    assert!(good.is_spirv_module());
    let short = CompiledArtifact::new(vec![0x03, 0x02, 0x23], "v".to_string(), "f".to_string());
    assert!(!short.is_spirv_module());
    let ragged = CompiledArtifact::new(vec![0x03, 0x02, 0x23, 0x07, 0], "v".to_string(), "f".to_string());
    assert!(!ragged.is_spirv_module());
    let swapped = CompiledArtifact::new(vec![0x07, 0x23, 0x02, 0x03], "v".to_string(), "f".to_string());
    assert!(!swapped.is_spirv_module());
    assert!(!CompiledArtifact::new(Vec::new(), "v".to_string(), "f".to_string()).is_spirv_module());
}
