use rugu::context::GraphicsContext;
use rugu::frame::FrameAction;
use rugu::input::{ControlFlow, ElementState, KeyboardInput, VirtualKeyCode, WindowId};
use rugu::pipeline::Geometry;
use rugu::surface::{CompositeAlphaMode, PresentMode, SurfaceCapabilities};
use rugu::{handle_keyboard_input, State};

#[test]
fn state_and_key_handler_are_found_at_the_root() {
    let caps = SurfaceCapabilities {
        formats: vec![wgpu::TextureFormat::Rgba8Unorm],
        present_modes: vec![PresentMode::Fifo],
        alpha_modes: vec![CompositeAlphaMode::Auto],
    };
    let context = GraphicsContext::create(true, true).unwrap();
    let mut state =
        State::new(context, WindowId(1), &caps, 2, 3, Geometry::Triangle, Some(4), false, 0)
            .unwrap();
    match state.draw(1, Ok(())) {
        FrameAction::Render(pass) => {
            assert_eq!((pass.vertices.start, pass.vertices.end), (0, 3));
            assert_eq!((pass.instances.start, pass.instances.end), (0, 4));
            assert_eq!(pass.instance_slot, Some(1));
            assert_eq!(pass.bind_group, None);
        }
        other => panic!("{:?}", other),
    }
    let mut flow = ControlFlow::Wait;
    let input = KeyboardInput {
        scancode: 9,
        state: ElementState::Pressed,
        virtual_keycode: Some(VirtualKeyCode::Escape),
    };
    handle_keyboard_input(input, &mut flow);
    assert_eq!(flow, ControlFlow::ExitWithCode(0));
}
