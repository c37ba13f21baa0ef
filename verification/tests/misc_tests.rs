//! Tests for animation, plugins, colors and the crate surface.

use rsdrav::animation::Animatable;
use rsdrav::animation::EasingFunction;
use rsdrav::animation::Timeline;
use rsdrav::animation::Tween;
use rsdrav::event::Event;
use rsdrav::event::KeyCode;
use rsdrav::event::KeyEvent;
use rsdrav::event::KeyModifiers;
use rsdrav::frame::default_event_action;
use rsdrav::frame::DefaultAction;
use rsdrav::plugin::Capability;
use rsdrav::plugin::ExamplePlugin;
use rsdrav::plugin::Plugin;
use rsdrav::plugin::PluginManager;
use rsdrav::render::Buffer;
use rsdrav::theme::Color;

#[test]
fn lib_test_buffer_creation() {
    let buf = Buffer::new(80, 24);
    assert_eq!(buf.width, 80);
    assert_eq!(buf.height, 24);
}

#[test]
fn test_tween_i32() {
    let mut tween = Tween::new(0_i32, 100_i32, 1000);

    tween.update(500);
    let mid = tween.value();
    assert!((45..=55).contains(&mid));
}

#[test]
fn test_timeline() {
    let mut timeline = Timeline::new();

    let tween1 = Tween::new(0_i32, 10_i32, 100);
    let tween2 = Tween::new(0_i32, 20_i32, 200);

    timeline.add(tween1);
    timeline.add(tween2);

    assert!(!timeline.is_complete());

    timeline.update(100);
    timeline.update(100);

    assert!(timeline.is_complete());
}

#[test]
fn tween_reaches_its_end_value() {
    let mut tween = Tween::new(0_i32, 100_i32, 1000);
    assert_eq!(tween.value(), 0);
    assert!(!tween.is_complete());

    tween.update(500);
    tween.update(500);
    assert_eq!(tween.value(), 100);
    assert!(tween.is_complete());
}

#[test]
fn easing_linear_is_identity() {
    let easing = EasingFunction::Linear;
    assert_eq!(easing.apply(0), 0);
    assert_eq!(easing.apply(500), 500);
    assert_eq!(easing.apply(1000), 1000);
}

#[test]
fn easing_in_quad_squares_the_position() {
    let easing = EasingFunction::EaseInQuad;
    assert_eq!(easing.apply(0), 0);
    assert_eq!(easing.apply(500), 250);
    assert_eq!(easing.apply(1000), 1000);
}

#[test]
fn easing_clamps_positions_above_full() {
    let easing = EasingFunction::Linear;
    assert_eq!(easing.apply(2000), 1000);
}

#[test]
fn lerp_of_u16_interpolates() {
    let a: u16 = 0;
    assert_eq!(a.lerp(&100, 0), 0);
    assert_eq!(a.lerp(&100, 500), 50);
    assert_eq!(a.lerp(&100, 1000), 100);
    let b: u16 = 100;
    assert_eq!(b.lerp(&0, 500), 50);
}

#[test]
fn test_color_interpolation() {
    let black = Color::black();
    let white = Color::white();

    let mid = black.lerp(&white, 500);
    assert!(mid.r > 120 && mid.r < 135);
    assert!(mid.g > 120 && mid.g < 135);
    assert!(mid.b > 120 && mid.b < 135);
}

#[test]
fn test_plugin_manager_creation() {
    let manager = PluginManager::new();
    assert_eq!(manager.list_plugins().len(), 0);
}

#[test]
fn test_plugin_registration() {
    let mut manager = PluginManager::new();
    let plugin = Box::new(ExamplePlugin::new("test".to_string()));

    let result = manager.register(plugin);
    assert!(result.is_ok());
    assert_eq!(manager.list_plugins().len(), 1);
}

#[test]
fn test_plugin_init() {
    let mut manager = PluginManager::new();
    let plugin = Box::new(ExamplePlugin::new("test".to_string()));

    manager.register(plugin).unwrap();
    let result = manager.init_all();
    assert!(result.is_ok());
}

struct GreedyPlugin;

impl Plugin for GreedyPlugin {
    fn name(&self) -> &str {
        "greedy"
    }

    fn version(&self) -> &str {
        "0.0.1"
    }

    fn required_capabilities(&self) -> Vec<Capability> {
        vec![Capability::Execute]
    }

    fn init(&mut self) -> Result<(), rsdrav::error::Error> {
        Ok(())
    }

    fn cleanup(&mut self) -> Result<(), rsdrav::error::Error> {
        Ok(())
    }
}

#[test]
fn plugin_asking_to_execute_is_denied() {
    let mut manager = PluginManager::new();
    let result = manager.register(Box::new(GreedyPlugin));
    assert!(result.is_err());
    assert_eq!(manager.list_plugins().len(), 0);
}

#[test]
fn plugin_lookup_by_name() {
    let mut manager = PluginManager::new();
    manager
        .register(Box::new(ExamplePlugin::new("alpha".to_string())))
        .unwrap();
    assert!(manager.get("alpha").is_some());
    assert!(manager.get("beta").is_none());
}

#[test]
fn color_lerp_endpoints_are_exact() {
    let a = Color::rgb(10, 20, 30);
    let b = Color::rgb(200, 100, 0);
    assert_eq!(a.lerp(&b, 0), a);
    assert_eq!(a.lerp(&b, 1000), b);
}

#[test]
fn default_policy_maps_tab_and_quit_keys() {
    let tab = Event::Key(KeyEvent::new(KeyCode::Tab, KeyModifiers::empty()));
    assert_eq!(default_event_action(&tab), DefaultAction::FocusNext);

    let back = Event::Key(KeyEvent::new(KeyCode::Tab, KeyModifiers::shift()));
    assert_eq!(default_event_action(&back), DefaultAction::FocusPrev);

    let q = Event::Key(KeyEvent::new(KeyCode::Char('q'), KeyModifiers::empty()));
    assert_eq!(default_event_action(&q), DefaultAction::Quit);

    let ctrl_c = Event::Key(KeyEvent::new(KeyCode::Char('c'), KeyModifiers::control()));
    assert_eq!(default_event_action(&ctrl_c), DefaultAction::Quit);

    let plain_c = Event::Key(KeyEvent::new(KeyCode::Char('c'), KeyModifiers::empty()));
    assert_eq!(default_event_action(&plain_c), DefaultAction::Idle);

    let resize = Event::Resize(80, 24);
    assert_eq!(default_event_action(&resize), DefaultAction::Idle);
}
