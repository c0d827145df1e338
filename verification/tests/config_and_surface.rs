use adwaita_bridge::config::should_exit;
use adwaita_bridge::config::AdwaitaHeaderBar;
use adwaita_bridge::config::AdwaitaWindowConfig;
use adwaita_bridge::config::AdwaitaWindowPlugin;
use adwaita_bridge::config::ExitCondition;
use adwaita_bridge::config::WindowCommand;
use adwaita_bridge::config::COMMAND_CHANNEL_CAPACITY;
use adwaita_bridge::frame::Extent2;
use adwaita_bridge::frame::FrameDescriptor;
use adwaita_bridge::registry::ViewRegistry;
use adwaita_bridge::surface::dmabuf_plan;
use adwaita_bridge::surface::export_image_plan;
use adwaita_bridge::surface::required_device_extensions;
use adwaita_bridge::surface::BYTES_PER_PIXEL;
use adwaita_bridge::surface::DMABUF_FOURCC_RGBA8888;
use adwaita_bridge::surface::DMABUF_MODIFIER_NONE;
use adwaita_bridge::window::AdwaitaWindow;

#[test]
fn default_window_config() {
    let config = AdwaitaWindowConfig::default();
    assert_eq!(config.width, 1280);
    assert_eq!(config.height, 720);
    assert_eq!(config.title, "App");
    assert!(config.resizable);
    assert!(!config.maximized);
    assert!(!config.fullscreen);
    assert_eq!(config.header_bar, AdwaitaHeaderBar::Full);
}

#[test]
fn default_plugin_opens_a_primary_window() {
    let plugin = AdwaitaWindowPlugin::default();
    let config = plugin.primary_window_config.expect("a primary window by default");
    assert_eq!((config.width, config.height), (1280, 720));
    assert_eq!(plugin.exit_condition, ExitCondition::OnAllClosed);
    assert_eq!(AdwaitaHeaderBar::default(), AdwaitaHeaderBar::Full);
}

#[test]
fn exit_policy_decisions() {
    assert!(should_exit(ExitCondition::OnPrimaryClosed, false, true));
    assert!(!should_exit(ExitCondition::OnPrimaryClosed, true, true));
    assert!(should_exit(ExitCondition::OnAllClosed, false, false));
    assert!(!should_exit(ExitCondition::OnAllClosed, false, true));
    assert!(!should_exit(ExitCondition::DontExit, false, false));
}

#[test]
fn commands_are_queued_in_order_and_dropped_when_full() {
    let mut views = ViewRegistry::new();
    let mut window = AdwaitaWindow::open(&mut views);

    window.maximize();
    window.unfullscreen();
    window.set_title(String::from("fancy"));
    assert_eq!(window.next_command(), Some(WindowCommand::SetMaximized(true)));
    assert_eq!(window.next_command(), Some(WindowCommand::SetFullscreen(false)));
    assert_eq!(window.next_command(), Some(WindowCommand::SetTitle(String::from("fancy"))));
    assert_eq!(window.next_command(), None);

    for _ in 0..COMMAND_CHANNEL_CAPACITY {
        window.fullscreen();
    }
    // The channel is full: this hint is dropped, not queued and not blocking.
    window.unmaximize();
    for _ in 0..COMMAND_CHANNEL_CAPACITY {
        assert_eq!(window.next_command(), Some(WindowCommand::SetFullscreen(true)));
    }
    assert_eq!(window.next_command(), None);

    window.set_maximized(false);
    assert_eq!(window.next_command(), Some(WindowCommand::SetMaximized(false)));
}

#[test]
fn fresh_handles_avoid_the_registry() {
    let mut views = ViewRegistry::new();
    for handle in [0u32, 1, 2, 3, 17, 0xdead_beef] {
        views.insert_handle(handle);
    }
    for _ in 0..64 {
        let fresh = views.fresh_handle();
        assert!(!views.contains_handle(fresh));
    }
    views.insert_handle(3);
    assert!(views.contains_handle(3));
    assert!(views.contains_handle(0xdead_beef));
    assert!(!views.contains_handle(4));
}

#[test]
fn dmabuf_plan_is_one_tightly_packed_rgba_plane() {
    let frame = FrameDescriptor { width: 640, height: 480, memory_fd: 12, texture_view: 1 };
    let plan = dmabuf_plan(&frame).expect("stride fits");
    assert_eq!(plan.width, 640);
    assert_eq!(plan.height, 480);
    assert_eq!(plan.fourcc, DMABUF_FOURCC_RGBA8888);
    assert_eq!(plan.fourcc, 0x3432_4152);
    assert_eq!(plan.modifier, DMABUF_MODIFIER_NONE);
    assert_eq!(plan.plane_count, 1);
    assert_eq!(plan.memory_fd, 12);
    assert_eq!(plan.offset, 0);
    assert_eq!(plan.stride, 640 * BYTES_PER_PIXEL);

    let too_wide = FrameDescriptor {
        width: u32::MAX / BYTES_PER_PIXEL + 1,
        height: 1,
        memory_fd: 12,
        texture_view: 1,
    };
    assert_eq!(dmabuf_plan(&too_wide), None);
}

#[test]
fn export_image_plan_pins_the_export_parameters() {
    let plan = export_image_plan(Extent2 { width: 1920, height: 1080 });
    assert_eq!((plan.width, plan.height, plan.depth), (1920, 1080, 1));
    assert_eq!((plan.mip_levels, plan.array_layers, plan.sample_count), (1, 1, 1));
    assert!(plan.srgb_rgba8_format);
    assert!(plan.optimal_tiling);
    assert!(plan.render_attachment_usage);
    assert!(plan.copy_src_usage);
    assert!(plan.external_memory_fd);
    assert!(plan.dedicated_allocation);
}

#[test]
fn exporter_needs_the_two_external_memory_extensions() {
    let extensions = required_device_extensions();
    assert_eq!(
        extensions,
        vec![
            String::from("VK_KHR_get_memory_requirements2"),
            String::from("VK_KHR_external_memory_fd"),
        ]
    );
}
