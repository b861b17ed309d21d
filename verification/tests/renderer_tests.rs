use scene2d::base_renderer::{
    clear_color, draw_list, fault_of, first_set, frames_per_second, plan_frame, select_adapter,
    select_surface_format, surface_format, BaseRenderer, DrawCall, FrameHook, LoopAction,
    LoopEvent, Still, SurfaceFault, SurfaceSize, FRAME_LATENCY, REPORT_EVERY, SAMPLE_COUNT,
};
use scene2d::entity::{DeviceWork, EntityList};
use scene2d::vector::Vector;
use wgpu::TextureFormat::{Bgra8Unorm, Bgra8UnormSrgb, Rgba8Unorm, Rgba8UnormSrgb};

struct NoHook;

impl FrameHook<f32> for NoHook {
    fn on_frame(&mut self, _entities: &mut EntityList<f32>) {}
}

struct MoveFirst {
    calls: usize,
}

impl FrameHook<f32> for MoveFirst {
    fn on_frame(&mut self, entities: &mut EntityList<f32>) {
        self.calls += 1;
        entities.get_entity_unchecked(0).translate_by(Vector::new(1.0, 0.0));
        if self.calls == 2 {
            entities.add_entity().set_geometry(vec![], vec![0, 1, 2]);
        }
    }
}

fn size(width: u32, height: u32) -> SurfaceSize {
    SurfaceSize { width, height }
}

#[test]
fn constants_of_the_pipeline() {
    assert_eq!(SAMPLE_COUNT, 4);
    assert_eq!(FRAME_LATENCY, 2);
    assert_eq!(REPORT_EVERY, 200);
}

#[test]
fn new_renderer_has_the_window_size_everywhere() {
    let r: BaseRenderer<f32, NoHook> = BaseRenderer::new(1200, 1200);
    assert_eq!(r.config_size(), size(1200, 1200));
    assert_eq!(r.multisample_size(), size(1200, 1200));
    assert_eq!(r.entities.iter().len(), 0);
}

#[test]
fn resize_without_area_is_ignored() {
    let mut r: BaseRenderer<f32, NoHook> = BaseRenderer::new(640, 480);
    assert!(!r.resize(size(0, 600)));
    assert_eq!(r.config_size(), size(640, 480));
    assert_eq!(r.multisample_size(), size(640, 480));
    assert!(!r.resize(size(800, 0)));
    assert!(!r.resize(size(0, 0)));
    assert_eq!(r.config_size(), size(640, 480));
    assert_eq!(r.multisample_size(), size(640, 480));
}

#[test]
fn resize_with_area_updates_configuration_and_multisample_target() {
    let mut r: BaseRenderer<f32, NoHook> = BaseRenderer::new(640, 480);
    assert!(r.resize(size(800, 600)));
    assert_eq!(r.config_size(), size(800, 600));
    assert_eq!(r.multisample_size(), size(800, 600));
    assert!(r.resize(size(1, 1)));
    assert_eq!(r.config_size(), size(1, 1));
}

#[test]
fn resized_event_asks_to_reconfigure_only_with_area() {
    let mut r: BaseRenderer<f32, NoHook> = BaseRenderer::new(640, 480);
    match r.run(LoopEvent::Resized { width: 800, height: 600 }) {
        LoopAction::Reconfigure { size: s } => assert_eq!(s, size(800, 600)),
        _ => panic!("expected to reconfigure"),
    }
    assert!(matches!(r.run(LoopEvent::Resized { width: 0, height: 600 }), LoopAction::Idle));
    assert_eq!(r.config_size(), size(800, 600));
}

#[test]
fn close_and_wait_and_other_events() {
    let mut r: BaseRenderer<f32, NoHook> = BaseRenderer::new(640, 480);
    assert!(matches!(r.run(LoopEvent::CloseRequested), LoopAction::Exit { out_of_memory: false }));
    assert!(matches!(r.run(LoopEvent::AboutToWait), LoopAction::RequestRedraw));
    assert!(matches!(r.run(LoopEvent::Other), LoopAction::Idle));
    assert_eq!(r.config_size(), size(640, 480));
}

#[test]
fn lost_surface_is_configured_again_at_the_present_size() {
    let mut r: BaseRenderer<f32, NoHook> = BaseRenderer::new(640, 480);
    r.entities.add_entity();
    match r.run(LoopEvent::RedrawRequested { fault: Some(SurfaceFault::Lost) }) {
        LoopAction::Reconfigure { size: s } => assert_eq!(s, size(640, 480)),
        _ => panic!("expected to reconfigure"),
    }
    // nothing was drawn and no work was taken
    assert_eq!(r.entities.take_work()[0].len(), 1);
}

#[test]
fn lost_surface_of_a_window_without_area_is_left_alone() {
    let mut r: BaseRenderer<f32, NoHook> = BaseRenderer::new(0, 0);
    assert!(matches!(
        r.run(LoopEvent::RedrawRequested { fault: Some(SurfaceFault::Lost) }),
        LoopAction::Idle
    ));
}

#[test]
fn out_of_memory_ends_the_loop_and_a_timeout_skips_the_frame() {
    let mut r: BaseRenderer<f32, NoHook> = BaseRenderer::new(640, 480);
    assert!(matches!(
        r.run(LoopEvent::RedrawRequested { fault: Some(SurfaceFault::OutOfMemory) }),
        LoopAction::Exit { out_of_memory: true }
    ));
    assert!(matches!(
        r.run(LoopEvent::RedrawRequested { fault: Some(SurfaceFault::Timeout) }),
        LoopAction::Skip
    ));
}

#[test]
fn stale_image_is_configured_again_at_the_present_size() {
    let mut r: BaseRenderer<f32, NoHook> = BaseRenderer::new(640, 480);
    r.entities.add_entity();
    r.resize(size(800, 600));
    match r.run(LoopEvent::RedrawRequested { fault: Some(SurfaceFault::Outdated) }) {
        LoopAction::Reconfigure { size: s } => assert_eq!(s, size(800, 600)),
        _ => panic!("expected to reconfigure"),
    }
    assert_eq!(r.config_size(), size(800, 600));
    assert_eq!(r.multisample_size(), size(800, 600));
    // nothing was drawn and no work was taken
    assert_eq!(r.entities.take_work()[0].len(), 1);
}

#[test]
fn render_without_image_returns_the_fault() {
    let mut r: BaseRenderer<f32, NoHook> = BaseRenderer::new(640, 480);
    assert!(matches!(r.render(Some(SurfaceFault::Lost)), Err(SurfaceFault::Lost)));
    assert!(matches!(r.render(Some(SurfaceFault::OutOfMemory)), Err(SurfaceFault::OutOfMemory)));
    assert!(matches!(r.render(Some(SurfaceFault::Timeout)), Err(SurfaceFault::Timeout)));
    assert!(matches!(r.render(Some(SurfaceFault::Outdated)), Err(SurfaceFault::Outdated)));
}

#[test]
fn render_without_hook_plans_the_scene_as_it_is() {
    let mut r: BaseRenderer<f32, NoHook> = BaseRenderer::new(640, 480);
    r.entities.add_entity().set_geometry(vec![], vec![0, 1, 2]);
    r.entities.add_entity().set_shader(String::from("s"));
    let plan = match r.render(None) {
        Ok(plan) => plan,
        Err(_) => panic!("there was an image"),
    };
    assert_eq!(
        plan.draws,
        vec![
            DrawCall { entity: 0, custom_pipeline: false, index_count: 3 },
            DrawCall { entity: 1, custom_pipeline: true, index_count: 0 },
        ]
    );
    assert_eq!(plan.work.len(), 2);
    assert_eq!(plan.work[0].len(), 2);
    assert!(matches!(plan.work[0][1], DeviceWork::ReplaceGeometry { .. }));
    assert!(matches!(plan.work[1][1], DeviceWork::BuildPipeline { .. }));
    // the next frame has nothing left to send
    let next = match r.render(None) {
        Ok(plan) => plan,
        Err(_) => panic!("there was an image"),
    };
    assert!(next.work.iter().all(|w| w.is_empty()));
    assert_eq!(next.draws.len(), 2);
}

#[test]
fn hook_runs_before_the_frame_is_planned() {
    let mut r: BaseRenderer<f32, MoveFirst> = BaseRenderer::new(640, 480);
    r.entities.add_entity();
    r.entities.take_work();
    r.set_main_loop(MoveFirst { calls: 0 });
    let first = match r.run(LoopEvent::RedrawRequested { fault: None }) {
        LoopAction::Present { plan, report } => {
            assert_eq!(report, None);
            plan
        }
        _ => panic!("expected a frame"),
    };
    assert_eq!(first.draws.len(), 1);
    assert_eq!(first.work[0].len(), 1);
    match &first.work[0][0] {
        DeviceWork::WriteTransform { transform } => {
            assert_eq!(transform.position().pos, [1.0, 0.0])
        }
        _ => panic!("expected a transform write"),
    }
    let second = match r.run(LoopEvent::RedrawRequested { fault: None }) {
        LoopAction::Present { plan, .. } => plan,
        _ => panic!("expected a frame"),
    };
    assert_eq!(
        second.draws,
        vec![
            DrawCall { entity: 0, custom_pipeline: false, index_count: 0 },
            DrawCall { entity: 1, custom_pipeline: false, index_count: 3 },
        ]
    );
    assert_eq!(r.entities.get_entity_unchecked(0).position().pos, [2.0, 0.0]);
}

#[test]
fn hook_does_not_run_without_an_image() {
    let mut r: BaseRenderer<f32, MoveFirst> = BaseRenderer::new(640, 480);
    r.entities.add_entity();
    r.set_main_loop(MoveFirst { calls: 0 });
    assert!(matches!(
        r.run(LoopEvent::RedrawRequested { fault: Some(SurfaceFault::Timeout) }),
        LoopAction::Skip
    ));
    assert_eq!(r.entities.get_entity_unchecked(0).position().pos, [0.0, 0.0]);
}

#[test]
fn frame_rate_is_reported_every_two_hundred_frames() {
    let mut r: BaseRenderer<f32, NoHook> = BaseRenderer::new(640, 480);
    for round in 0..3 {
        for frame in 1..=200u16 {
            match r.run(LoopEvent::RedrawRequested { fault: None }) {
                LoopAction::Present { report, .. } => {
                    if frame < 200 {
                        assert_eq!(report, None, "round {} frame {}", round, frame);
                    } else {
                        assert_eq!(report.map(|r| r.frames), Some(200));
                    }
                }
                _ => panic!("expected a frame"),
            }
        }
    }
}

#[test]
fn failed_frames_do_not_count() {
    let mut r: BaseRenderer<f32, NoHook> = BaseRenderer::new(640, 480);
    for _ in 0..199 {
        match r.run(LoopEvent::RedrawRequested { fault: None }) {
            LoopAction::Present { report, .. } => assert_eq!(report, None),
            _ => panic!("expected a frame"),
        }
    }
    r.run(LoopEvent::RedrawRequested { fault: Some(SurfaceFault::Outdated) });
    r.run(LoopEvent::RedrawRequested { fault: Some(SurfaceFault::Lost) });
    r.run(LoopEvent::RedrawRequested { fault: Some(SurfaceFault::Timeout) });
    match r.run(LoopEvent::RedrawRequested { fault: None }) {
        LoopAction::Present { report, .. } => assert_eq!(report.map(|r| r.frames), Some(200)),
        _ => panic!("expected a frame"),
    }
    match r.run(LoopEvent::RedrawRequested { fault: None }) {
        LoopAction::Present { report, .. } => assert_eq!(report, None),
        _ => panic!("expected a frame"),
    }
}

#[test]
fn frames_per_second_is_a_million_times_frames_over_microseconds() {
    assert_eq!(frames_per_second(256u16, 1048576.0f32), 244.140625);
    assert_eq!(frames_per_second(201u16, 1000000.0f32), 1000000.0f32 * (201.0f32 / 1000000.0f32));
    assert_eq!(frames_per_second(3u16, 2i64), 1000000);
    assert_eq!(frames_per_second(200u16, 100i64), 2000000);
}

#[test]
fn first_set_finds_the_first_flag() {
    assert_eq!(first_set(&vec![]), None);
    assert_eq!(first_set(&vec![false, false]), None);
    assert_eq!(first_set(&vec![false, true, true]), Some(1));
    assert_eq!(first_set(&vec![true]), Some(0));
}

#[test]
fn adapter_is_the_first_that_supports_the_surface() {
    assert_eq!(select_adapter(&vec![false, false, true, true]), Some(2));
    assert_eq!(select_adapter(&vec![false]), None);
}

#[test]
fn surface_format_is_the_first_srgb_or_else_the_first() {
    assert_eq!(select_surface_format(&vec![false, true, true]), 1);
    assert_eq!(select_surface_format(&vec![true, false]), 0);
    assert_eq!(select_surface_format(&vec![false, false, false]), 0);
}

#[test]
fn draw_list_and_plan_frame_follow_the_registry() {
    let mut list: EntityList<f32> = EntityList::new();
    list.add_entity().set_geometry(vec![], vec![0; 9]);
    list.add_entity();
    list.delete_entity(0);
    list.add_entity().set_shader(String::from("s"));
    assert_eq!(
        draw_list(&list),
        vec![
            DrawCall { entity: 0, custom_pipeline: false, index_count: 0 },
            DrawCall { entity: 1, custom_pipeline: true, index_count: 0 },
        ]
    );
    let plan = plan_frame(&mut list);
    assert_eq!(plan.draws.len(), 2);
    assert_eq!(plan.work[0].len(), 1);
    assert_eq!(plan.work[1].len(), 2);
    assert!(plan_frame(&mut list).work.iter().all(|w| w.is_empty()));
}

#[test]
fn report_measures_the_time_since_the_last_report() {
    let mut r: BaseRenderer<f32, NoHook> = BaseRenderer::new(640, 480);
    for _ in 0..199 {
        r.run(LoopEvent::RedrawRequested { fault: None });
    }
    coarsetime::Instant::update();
    let started = coarsetime::Instant::now();
    while started.elapsed().as_micros() < 30_000 {
        std::hint::spin_loop();
    }
    let first = match r.run(LoopEvent::RedrawRequested { fault: None }) {
        LoopAction::Present { report: Some(report), .. } => report,
        _ => panic!("expected a report"),
    };
    assert!(first.elapsed_micros >= 20_000, "{} microseconds", first.elapsed_micros);
    assert!(first.elapsed_micros < 10_000_000);
    let rate = frames_per_second(first.frames, first.elapsed_micros as f32);
    assert!(rate > 0.0 && rate < 200.0 * 50.0);
}

#[test]
fn failed_acquisitions_are_told_apart() {
    type Outcome = Result<wgpu::SurfaceTexture, wgpu::SurfaceError>;
    let lost: Outcome = Err(wgpu::SurfaceError::Lost);
    let memory: Outcome = Err(wgpu::SurfaceError::OutOfMemory);
    let timeout: Outcome = Err(wgpu::SurfaceError::Timeout);
    let outdated: Outcome = Err(wgpu::SurfaceError::Outdated);
    assert_eq!(fault_of(&lost), Some(SurfaceFault::Lost));
    assert_eq!(fault_of(&memory), Some(SurfaceFault::OutOfMemory));
    assert_eq!(fault_of(&timeout), Some(SurfaceFault::Timeout));
    assert_eq!(fault_of(&outdated), Some(SurfaceFault::Outdated));
}

#[test]
fn surface_format_prefers_srgb() {
    assert_eq!(surface_format(&vec![Bgra8Unorm, Bgra8UnormSrgb, Rgba8UnormSrgb]), 1);
    assert_eq!(surface_format(&vec![Rgba8UnormSrgb, Bgra8Unorm]), 0);
    assert_eq!(surface_format(&vec![Rgba8Unorm, Bgra8Unorm]), 0);
    assert_eq!(surface_format(&vec![Rgba8Unorm, Bgra8Unorm, Rgba8Unorm, Rgba8UnormSrgb]), 3);
}

#[test]
fn frames_are_cleared_to_mid_gray() {
    assert_eq!(clear_color::<f64>(), (0.3, 0.3, 0.3, 1.0));
    assert_eq!(clear_color::<f32>(), (0.3, 0.3, 0.3, 1.0));
}

#[test]
fn still_hook_leaves_the_scene_as_it_is() {
    let mut r: BaseRenderer<f32, Still> = BaseRenderer::new(640, 480);
    r.entities.add_entity().translate_to(Vector::new(3.0, 4.0));
    r.set_main_loop(Still);
    let plan = match r.render(None) {
        Ok(plan) => plan,
        Err(_) => panic!("there was an image"),
    };
    assert_eq!(plan.draws, vec![DrawCall { entity: 0, custom_pipeline: false, index_count: 0 }]);
    assert_eq!(plan.work[0].len(), 2);
    assert_eq!(r.entities.get_entity_unchecked(0).position().pos, [3.0, 4.0]);
}
