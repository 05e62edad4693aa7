use iced_graphics::Antialiasing;
use scene_pipeline::compositor::{
    Action, AdapterOptions, ClearPass, Color, Compositor, DeviceDescriptor, Event, Extent, Fatal, Phase,
    PowerPreference, PresentMode, Rejected, Scene, Settings, State, SwapChainDescriptor,
};
use wgpu::TextureFormat;
use scene_pipeline::mesh::AttributeCount;
use scene_pipeline::mouse::Interaction;

fn settings() -> Settings {
    Settings { format: TextureFormat::Bgra8UnormSrgb, antialiasing: None }
}

fn empty_scene() -> Scene {
    Scene { geometry: AttributeCount::default(), overlay_lines: 0 }
}

fn busy_scene() -> Scene {
    Scene {
        geometry: AttributeCount { solid_vertices: 7, solids: 2, gradient_vertices: 5, gradients: 1, indices: 18 },
        overlay_lines: 3,
    }
}

fn chain(width: u32, height: u32) -> Action {
    Action::CreateSwapChain {
        descriptor: SwapChainDescriptor {
            format: TextureFormat::Bgra8UnormSrgb,
            width,
            height,
            present_mode: PresentMode::Mailbox,
        },
    }
}

fn white_pass() -> Action {
    Action::Clear {
        pass: ClearPass { clear_color: Color { r: 255, g: 255, b: 255, a: 255 }, depth_stencil: false },
    }
}

/// A compositor with device and queue, and a window of 800 by 600.
fn ready() -> Compositor {
    let mut c = Compositor::new(settings());
    c.step(Event::Started).unwrap();
    c.step(Event::AdapterFound).unwrap();
    c.step(Event::DeviceReady).unwrap();
    c.step(Event::Resized { width: 800, height: 600 }).unwrap();
    c
}

fn frame(c: &mut Compositor, scene: Scene, interaction: Interaction) -> Vec<Action> {
    let mut actions = c.step(Event::DrawRequested { scene }).unwrap();
    actions.extend(c.step(Event::ImageAcquired).unwrap());
    actions.extend(c.step(Event::Rendered { interaction }).unwrap());
    actions
}

#[test]
fn a_new_compositor_has_asked_for_nothing() {
    let c = Compositor::new(settings());
    assert_eq!(
        c.state(),
        State { settings: settings(), phase: Phase::Uninitialized, surface: None, chain: None }
    );
}

#[test]
fn antialiasing_asks_for_the_fast_adapter() {
    assert_eq!(
        Compositor::adapter_options(&settings()),
        AdapterOptions { power_preference: PowerPreference::LowPower, compatible_surface: false }
    );
    for antialiasing in
        [Antialiasing::MSAAx2, Antialiasing::MSAAx4, Antialiasing::MSAAx8, Antialiasing::MSAAx16]
    {
        let wanted = Settings { antialiasing: Some(antialiasing), ..settings() };
        assert_eq!(
            Compositor::adapter_options(&wanted),
            AdapterOptions { power_preference: PowerPreference::HighPerformance, compatible_surface: false }
        );
        let mut c = Compositor::new(wanted);
        assert_eq!(
            c.step(Event::Started),
            Ok(vec![Action::RequestAdapter {
                options: AdapterOptions {
                    power_preference: PowerPreference::HighPerformance,
                    compatible_surface: false
                }
            }])
        );
    }
}

#[test]
fn startup_asks_for_an_adapter_and_then_for_a_device() {
    let mut c = Compositor::new(settings());
    assert_eq!(
        c.step(Event::Started),
        Ok(vec![Action::RequestAdapter {
            options: AdapterOptions { power_preference: PowerPreference::LowPower, compatible_surface: false }
        }])
    );
    assert_eq!(c.state().phase, Phase::AwaitingAdapter);
    assert_eq!(
        c.step(Event::AdapterFound),
        Ok(vec![Action::RequestDevice {
            descriptor: DeviceDescriptor { anisotropic_filtering: false, max_bind_groups: 2 }
        }])
    );
    assert_eq!(c.state().phase, Phase::AwaitingDevice);
    assert_eq!(c.step(Event::DeviceReady), Ok(vec![]));
    assert_eq!(c.state().phase, Phase::Ready);
    assert_eq!(c.state().chain, None);
}

#[test]
fn a_size_known_before_the_device_gets_its_chain_with_the_device() {
    let mut c = Compositor::new(settings());
    assert_eq!(c.step(Event::Resized { width: 640, height: 480 }), Ok(vec![]));
    c.step(Event::Started).unwrap();
    assert_eq!(c.step(Event::Resized { width: 320, height: 240 }), Ok(vec![]));
    c.step(Event::AdapterFound).unwrap();
    assert_eq!(c.state().chain, None);
    assert_eq!(c.step(Event::DeviceReady), Ok(vec![chain(320, 240)]));
    assert_eq!(c.state().chain, Some(Extent { width: 320, height: 240 }));
    assert_eq!(c.state().surface, Some(Extent { width: 320, height: 240 }));
}

#[test]
fn no_adapter_is_fatal() {
    let mut c = Compositor::new(settings());
    c.step(Event::Started).unwrap();
    assert_eq!(c.step(Event::AdapterMissing), Ok(vec![Action::Abort { fatal: Fatal::NoAdapter }]));
    assert_eq!(c.state().phase, Phase::Failed { fatal: Fatal::NoAdapter });
    assert_eq!(c.step(Event::Started), Err(Rejected::Halted { fatal: Fatal::NoAdapter }));
    assert_eq!(c.step(Event::AdapterFound), Err(Rejected::Halted { fatal: Fatal::NoAdapter }));
}

#[test]
fn no_device_is_fatal() {
    let mut c = Compositor::new(settings());
    c.step(Event::Started).unwrap();
    c.step(Event::AdapterFound).unwrap();
    assert_eq!(c.step(Event::DeviceMissing), Ok(vec![Action::Abort { fatal: Fatal::NoDevice }]));
    assert_eq!(
        c.step(Event::DrawRequested { scene: empty_scene() }),
        Err(Rejected::Halted { fatal: Fatal::NoDevice })
    );
}

#[test]
fn the_chain_is_made_with_the_format_of_the_settings() {
    let c = Compositor::new(Settings { format: TextureFormat::Rgba8Unorm, antialiasing: None });
    assert_eq!(
        c.swap_chain_descriptor(1024, 768),
        SwapChainDescriptor {
            format: TextureFormat::Rgba8Unorm,
            width: 1024,
            height: 768,
            present_mode: PresentMode::Mailbox
        }
    );
}

#[test]
fn a_frame_runs_in_order() {
    let mut c = ready();
    assert_eq!(c.step(Event::DrawRequested { scene: busy_scene() }), Ok(vec![Action::AcquireImage]));
    assert_eq!(c.state().phase, Phase::Acquiring { scene: busy_scene() });
    assert_eq!(
        c.step(Event::ImageAcquired),
        Ok(vec![Action::BeginRecording, white_pass(), Action::Render { scene: busy_scene() }])
    );
    assert_eq!(c.state().phase, Phase::Rendering);
    assert_eq!(
        c.step(Event::Rendered { interaction: Interaction::ZoomIn }),
        Ok(vec![
            Action::FinishRecording,
            Action::Submit,
            Action::Present,
            Action::Report { interaction: Interaction::ZoomIn }
        ])
    );
    assert_eq!(c.state().phase, Phase::Ready);
}

#[test]
fn an_empty_scene_is_drawn_like_any_other() {
    let mut c = ready();
    let actions = frame(&mut c, empty_scene(), Interaction::Idle);
    assert_eq!(
        actions,
        vec![
            Action::AcquireImage,
            Action::BeginRecording,
            white_pass(),
            Action::Render { scene: empty_scene() },
            Action::FinishRecording,
            Action::Submit,
            Action::Present,
            Action::Report { interaction: Interaction::Idle },
        ]
    );
    assert_eq!(c.state().phase, Phase::Ready);
    let again = frame(&mut c, empty_scene(), Interaction::Idle);
    assert_eq!(again, actions);
}

#[test]
fn a_resize_between_two_frames_makes_a_new_chain_before_the_next_image() {
    let mut c = ready();
    let first = frame(&mut c, busy_scene(), Interaction::Idle);
    assert!(!first.contains(&chain(800, 600)));
    assert_eq!(c.step(Event::Resized { width: 1024, height: 768 }), Ok(vec![chain(1024, 768)]));
    assert_eq!(c.state().chain, Some(Extent { width: 1024, height: 768 }));
    assert_eq!(c.step(Event::DrawRequested { scene: busy_scene() }), Ok(vec![Action::AcquireImage]));
}

#[test]
fn a_resize_to_the_same_size_still_makes_a_new_chain() {
    let mut c = ready();
    assert_eq!(c.step(Event::Resized { width: 800, height: 600 }), Ok(vec![chain(800, 600)]));
}

#[test]
fn a_resize_during_a_frame_waits_for_the_next_one() {
    let mut c = ready();
    c.step(Event::DrawRequested { scene: busy_scene() }).unwrap();
    assert_eq!(c.step(Event::Resized { width: 300, height: 200 }), Ok(vec![]));
    assert_eq!(c.state().chain, Some(Extent { width: 800, height: 600 }));
    c.step(Event::ImageAcquired).unwrap();
    assert_eq!(c.step(Event::Resized { width: 400, height: 300 }), Ok(vec![]));
    c.step(Event::Rendered { interaction: Interaction::Idle }).unwrap();
    assert_eq!(
        c.step(Event::DrawRequested { scene: busy_scene() }),
        Ok(vec![chain(400, 300), Action::AcquireImage])
    );
    assert_eq!(c.state().chain, Some(Extent { width: 400, height: 300 }));
    c.step(Event::ImageAcquired).unwrap();
    c.step(Event::Rendered { interaction: Interaction::Idle }).unwrap();
    assert_eq!(c.step(Event::DrawRequested { scene: busy_scene() }), Ok(vec![Action::AcquireImage]));
}

#[test]
fn no_image_is_fatal() {
    let mut c = ready();
    c.step(Event::DrawRequested { scene: busy_scene() }).unwrap();
    assert_eq!(c.step(Event::ImageUnavailable), Ok(vec![Action::Abort { fatal: Fatal::NoImage }]));
    assert_eq!(c.state().phase, Phase::Failed { fatal: Fatal::NoImage });
    let halted = Err(Rejected::Halted { fatal: Fatal::NoImage });
    assert_eq!(c.step(Event::ImageAcquired), halted);
    assert_eq!(c.step(Event::DrawRequested { scene: busy_scene() }), halted);
    assert_eq!(c.step(Event::Resized { width: 1, height: 1 }), halted);
    assert_eq!(c.state().surface, Some(Extent { width: 800, height: 600 }));
}

#[test]
fn a_draw_without_a_window_is_out_of_turn() {
    let mut c = Compositor::new(settings());
    c.step(Event::Started).unwrap();
    c.step(Event::AdapterFound).unwrap();
    c.step(Event::DeviceReady).unwrap();
    let before = c.state();
    assert_eq!(c.step(Event::DrawRequested { scene: empty_scene() }), Err(Rejected::OutOfTurn));
    assert_eq!(c.state(), before);
}

#[test]
fn events_out_of_turn_change_nothing() {
    let mut c = Compositor::new(settings());
    for event in [
        Event::AdapterFound,
        Event::AdapterMissing,
        Event::DeviceReady,
        Event::DeviceMissing,
        Event::DrawRequested { scene: empty_scene() },
        Event::ImageAcquired,
        Event::ImageUnavailable,
        Event::Rendered { interaction: Interaction::Idle },
    ] {
        assert_eq!(c.step(event), Err(Rejected::OutOfTurn));
        assert_eq!(c.state(), State { settings: settings(), phase: Phase::Uninitialized, surface: None, chain: None });
    }
    let mut c = ready();
    let before = c.state();
    for event in [
        Event::Started,
        Event::AdapterFound,
        Event::DeviceReady,
        Event::ImageAcquired,
        Event::ImageUnavailable,
        Event::Rendered { interaction: Interaction::Idle },
    ] {
        assert_eq!(c.step(event), Err(Rejected::OutOfTurn));
        assert_eq!(c.state(), before);
    }
    c.step(Event::DrawRequested { scene: busy_scene() }).unwrap();
    assert_eq!(c.step(Event::DrawRequested { scene: busy_scene() }), Err(Rejected::OutOfTurn));
    assert_eq!(c.step(Event::Rendered { interaction: Interaction::Idle }), Err(Rejected::OutOfTurn));
    c.step(Event::ImageAcquired).unwrap();
    assert_eq!(c.step(Event::ImageAcquired), Err(Rejected::OutOfTurn));
    assert_eq!(c.step(Event::ImageUnavailable), Err(Rejected::OutOfTurn));
}
