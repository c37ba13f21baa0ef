//! End-to-end tests across subsystems.

use std::sync::atomic::AtomicU32;
use std::sync::atomic::Ordering;
use std::sync::Arc;

use rsdrav::command::parse;
use rsdrav::command::Command;
use rsdrav::command::CommandContext;
use rsdrav::command::CommandHandler;
use rsdrav::command::CommandResult;
use rsdrav::error::Error;
use rsdrav::event::KeyCode;
use rsdrav::event::KeyEvent;
use rsdrav::event::KeyModifiers;
use rsdrav::focus::ComponentId;
use rsdrav::focus::FocusManager;
use rsdrav::layout::containers::Row;
use rsdrav::layout::Length;
use rsdrav::layout::Rect;
use rsdrav::render::compute_diff;
use rsdrav::render::Buffer;
use rsdrav::render::Cell;
use rsdrav::state::Derived;
use rsdrav::state::Signal;
use rsdrav::state::Store;
use rsdrav::theme::Color;
use rsdrav::theme::Modifier;
use rsdrav::theme::Style;
use rsdrav::view::Component;
use rsdrav::view::EventContext;
use rsdrav::view::Input;
use rsdrav::view::List;
use rsdrav::view::Modal;
use rsdrav::view::MountContext;
use rsdrav::view::RenderContext;
use rsdrav::view::Table;
use rsdrav::view::TableColumn;
use rsdrav::view::Tabs;
use rsdrav::view::Text;
use rsdrav::view::VStack;
use rsdrav::view::ViewNode;
use rsdrav::event::Event;
use rsdrav::event::EventResult;

#[test]
fn test_signal_with_store() {
    let store = Store::new();

    let count: Signal<i32> = store.get_or_create("count", 0);
    assert_eq!(count.get(), 0);

    count.set(42);

    let count2: Signal<i32> = store.get("count").unwrap();
    assert_eq!(count2.get(), 42);
}

#[test]
fn test_derived_with_signals() {
    let a = Signal::new(5);
    let b = Signal::new(10);

    let sum = {
        let a = a.clone();
        let b = b.clone();
        Derived::new(move || a.get() + b.get())
    };

    assert_eq!(sum.get(), 15);

    a.set(20);
    sum.invalidate();
    assert_eq!(sum.get(), 30);
}

#[test]
fn test_layout_with_buffer() {
    let mut buffer = Buffer::new(100, 50);

    let row = Row::new().gap(2);
    let area = Rect::new(0, 0, 100, 50);
    let rects = row.layout(area, &[Length::Fill(1), Length::Fill(1), Length::Fill(1)]);

    assert_eq!(rects.len(), 3);

    for (i, rect) in rects.iter().enumerate() {
        let ch = char::from_digit(i as u32, 10).unwrap();
        for y in rect.y..(rect.y + rect.height) {
            for x in rect.x..(rect.x + rect.width) {
                buffer.set(x, y, Cell::new(ch));
            }
        }
    }

    assert_ne!(buffer.get(10, 10).unwrap().ch, '\0');
}

struct IncrementHandler;

impl CommandHandler for IncrementHandler {
    fn execute(&mut self, _cmd: Command, ctx: &mut CommandContext) -> Result<CommandResult, Error> {
        let count: Signal<i32> = ctx.store.get_or_create("test_count", 0);
        count.update(|val: i32| val + 1);
        Ok(CommandResult::success())
    }
}

#[test]
fn test_command_with_store() {
    let store = Store::new();
    let mut ctx = CommandContext::new(store.clone());

    store.set("test_count", 0);

    let mut handler = IncrementHandler;
    let cmd = Command::new("increment".to_string());

    handler.execute(cmd, &mut ctx).unwrap();

    let count: Signal<i32> = store.get("test_count").unwrap();
    assert_eq!(count.get(), 1);
}

#[test]
fn test_style_rendering() {
    let style = Style::new()
        .fg(Color::red())
        .bg(Color::blue())
        .add_modifier(Modifier::bold());

    let cell = Cell::with_style('X', style);

    assert_eq!(cell.ch, 'X');
    assert_eq!(cell.style.fg, Some(Color::red()));
    assert_eq!(cell.style.bg, Some(Color::blue()));
    assert!(cell.style.modifiers.contains(Modifier::bold()));
}

#[test]
fn test_diff_rendering_pipeline() {
    let mut buf1 = Buffer::new(20, 10);
    let mut buf2;

    for x in 0..20 {
        buf1.set(x, 5, Cell::new('='));
    }

    buf2 = buf1.clone();
    for x in 0..20 {
        buf2.set(x, 5, Cell::new('-'));
    }

    let dirty = compute_diff(&buf1, &buf2);

    assert!(!dirty.is_empty());
    assert_eq!(dirty[0].rect.y, 5);
}

#[test]
fn test_complete_reactive_flow() {
    let store = Store::new();

    let count = store.get_or_create("count", 0);
    let doubled = {
        let count = count.clone();
        Derived::new(move || count.get() * 2)
    };

    let notifications = Arc::new(AtomicU32::new(0));
    let n = notifications.clone();
    let _sub = count.subscribe(move |_: &i32| {
        n.fetch_add(1, Ordering::SeqCst);
    });

    count.set(5);

    assert_eq!(notifications.load(Ordering::SeqCst), 1);

    doubled.invalidate();
    assert_eq!(doubled.get(), 10);

    count.update(|val: i32| val + 1);
    assert_eq!(count.get(), 6);
    assert_eq!(notifications.load(Ordering::SeqCst), 2);
}

#[test]
fn test_rect_layout_math() {
    let area = Rect::new(0, 0, 100, 100);

    let (left, right) = area.split_h(50);
    assert_eq!(left.width, 50);
    assert_eq!(right.width, 50);
    assert_eq!(right.x, 50);

    let r1 = Rect::new(10, 10, 20, 20);
    let r2 = Rect::new(20, 20, 20, 20);
    let inter = r1.intersect(&r2).unwrap();
    assert_eq!(inter.x, 20);
    assert_eq!(inter.y, 20);
    assert_eq!(inter.width, 10);
    assert_eq!(inter.height, 10);

    let union = r1.union(&r2);
    assert_eq!(union.x, 10);
    assert_eq!(union.y, 10);
    assert_eq!(union.width, 30);
    assert_eq!(union.height, 30);
}

#[test]
fn test_event_conversions() {
    let key = KeyEvent::new(KeyCode::Char('a'), KeyModifiers::control());
    assert_eq!(key.code, KeyCode::Char('a'));
    assert!(key.modifiers.contains(KeyModifiers::control()));

    let mods = KeyModifiers::control().union(KeyModifiers::shift());
    assert!(mods.contains(KeyModifiers::control()));
    assert!(mods.contains(KeyModifiers::shift()));
    assert!(!mods.contains(KeyModifiers::alt()));
}

#[test]
fn test_command_parsing_edge_cases() {
    assert!(parse("").is_err());
    assert!(parse("   ").is_err());

    let cmd = parse("quit").unwrap();
    assert_eq!(cmd.name, "quit");
    assert_eq!(cmd.args.len(), 0);

    let cmd = parse("echo    hello    world").unwrap();
    assert_eq!(cmd.args, vec!["hello", "world"]);

    let cmd = parse(r#"set "my var" "some value""#).unwrap();
    assert_eq!(cmd.args, vec!["my var", "some value"]);

    let cmd = parse(r"path /home/user\ name/file").unwrap();
    assert_eq!(cmd.args, vec!["/home/user name/file"]);
}

#[test]
fn test_signal_reactivity() {
    let sig = Signal::new(0);
    assert_eq!(sig.get(), 0);

    sig.set(42);
    assert_eq!(sig.get(), 42);

    sig.update(|v: i32| v + 1);
    assert_eq!(sig.get(), 43);
}

#[test]
fn test_derived_computation() {
    let a = Signal::new(2);
    let b = Signal::new(3);

    let sum = {
        let a = a.clone();
        let b = b.clone();
        Derived::new(move || a.get() + b.get())
    };

    assert_eq!(sum.get(), 5);

    a.set(10);
    sum.invalidate();
    assert_eq!(sum.get(), 13);
}

#[test]
fn test_store_operations() {
    let store = Store::new();

    store.set("count", 0);

    assert!(store.contains("count"));

    let retrieved: Option<Signal<i32>> = store.get("count");
    assert!(retrieved.is_some());
    assert_eq!(retrieved.unwrap().get(), 0);
}

#[test]
fn test_focus_manager() {
    let mut focus = FocusManager::new();

    let id1 = ComponentId::new(1);
    let id2 = ComponentId::new(2);
    let id3 = ComponentId::new(3);

    focus.register(id1, 0, true);
    focus.register(id2, 1, true);
    focus.register(id3, 2, true);

    assert_eq!(focus.current(), Some(id1));

    focus.focus_next();
    assert_eq!(focus.current(), Some(id2));

    focus.focus_next();
    assert_eq!(focus.current(), Some(id3));

    focus.focus_prev();
    assert_eq!(focus.current(), Some(id2));
}

#[test]
fn test_widget_composition() {
    let stack = VStack::new()
        .push(Text::new("Header".to_string()))
        .push(Text::new("Body".to_string()))
        .push(Text::new("Footer".to_string()));

    let store = Store::new();
    let area = Rect::new(0, 0, 80, 24);
    let ctx = RenderContext::new(area, &store);

    let node = stack.render(&ctx);

    match node {
        ViewNode::Container { children, .. } => {
            assert_eq!(children.len(), 3);
        }
        _ => panic!("Expected container node"),
    }
}

#[test]
fn test_input_widget() {
    let value = Signal::new(String::new());
    let mut input = Input::new(value.clone()).focused(true);

    let store = Store::new();
    let area = Rect::new(0, 0, 80, 24);
    let mut ctx = EventContext {
        store: &store,
        area,
    };

    let event = Event::Key(KeyEvent::new(KeyCode::Char('a'), KeyModifiers::empty()));
    let result = input.handle_event(&event, &mut ctx);

    assert_eq!(result, EventResult::Handled);
    assert_eq!(value.get(), "a");
}

#[test]
fn test_list_navigation() {
    let items = Signal::new(vec![1, 2, 3, 4, 5]);
    let selected = Signal::new(Some(0));

    let mut list = List::new(items, selected.clone());

    let store = Store::new();
    let area = Rect::new(0, 0, 80, 24);
    let mut ctx = EventContext {
        store: &store,
        area,
    };

    let down = Event::Key(KeyEvent::new(KeyCode::Down, KeyModifiers::empty()));
    list.handle_event(&down, &mut ctx);

    assert_eq!(selected.get(), Some(1));
}

#[derive(Clone)]
struct PersonRow {
    name: String,
    value: i32,
}

#[test]
fn test_table_rendering() {
    let data = Signal::new(vec![
        PersonRow {
            name: "A".into(),
            value: 1,
        },
        PersonRow {
            name: "B".into(),
            value: 2,
        },
    ]);
    let selected = Signal::new(Some(0));

    let table = Table::new(data, selected)
        .column(TableColumn::new("Name".to_string(), 10).render(|r: &PersonRow| r.name.clone()))
        .column(
            TableColumn::new("Value".to_string(), 10).render(|r: &PersonRow| r.value.to_string()),
        );

    let store = Store::new();
    let area = Rect::new(0, 0, 80, 24);
    let ctx = RenderContext::new(area, &store);

    let _node = table.render(&ctx);
}

#[test]
fn test_tabs_switching() {
    let selected = Signal::new(0);
    let mut tabs = Tabs::new(selected.clone())
        .tab("Tab1".to_string(), Text::new("Content 1".to_string()))
        .tab("Tab2".to_string(), Text::new("Content 2".to_string()))
        .tab("Tab3".to_string(), Text::new("Content 3".to_string()));

    let store = Store::new();
    let area = Rect::new(0, 0, 80, 24);
    let mut ctx = EventContext {
        store: &store,
        area,
    };

    let tab_event = Event::Key(KeyEvent::new(KeyCode::Tab, KeyModifiers::empty()));
    tabs.handle_event(&tab_event, &mut ctx);

    assert_eq!(selected.get(), 1);
}

#[test]
fn integration_tests_test_modal_visibility() {
    let visible = Signal::new(true);
    let modal = Modal::new(visible.clone())
        .title("Test".to_string())
        .child(Text::new("Content".to_string()));

    let store = Store::new();
    let area = Rect::new(0, 0, 80, 24);
    let ctx = RenderContext::new(area, &store);

    let _node = modal.render(&ctx);

    assert!(visible.get());
}

#[test]
fn test_command_parsing() {
    let result = parse("test arg1 arg2");
    assert!(result.is_ok());

    let cmd = result.unwrap();
    assert_eq!(cmd.name, "test");
    assert_eq!(cmd.args, vec!["arg1", "arg2"]);
}

#[test]
fn test_layout_calculations() {
    let rect = Rect::new(0, 0, 100, 50);

    let inner = rect.inner(2);
    assert_eq!(inner.width, 96);
    assert_eq!(inner.height, 46);

    let (left, right) = rect.split_h(50);
    assert_eq!(left.width, 50);
    assert_eq!(right.width, 50);
}

#[test]
fn test_buffer_resize() {
    let mut buf = Buffer::new(80, 24);
    assert_eq!(buf.width, 80);
    assert_eq!(buf.height, 24);

    buf.resize(120, 40);
    assert_eq!(buf.width, 120);
    assert_eq!(buf.height, 40);
}

#[test]
fn test_error_types() {
    let io_err = std::io::Error::new(std::io::ErrorKind::Other, "test");
    let err: Error = io_err.into();

    assert!(matches!(err, Error::Io(_)));
}

struct LifecycleComponent {
    mounted: Signal<bool>,
}

impl Component for LifecycleComponent {
    fn render(&self, _ctx: &RenderContext) -> ViewNode {
        ViewNode::text("Test".to_string())
    }

    fn mount(&mut self, _ctx: &mut MountContext) {
        self.mounted.set(true);
    }

    fn unmount(&mut self, _ctx: &mut MountContext) {
        self.mounted.set(false);
    }
}

#[test]
fn integration_tests_test_component_lifecycle() {
    let mut comp = LifecycleComponent {
        mounted: Signal::new(false),
    };
    assert!(!comp.mounted.get());

    let store = Store::new();
    let mut ctx = MountContext { store: &store };

    comp.mount(&mut ctx);
    assert!(comp.mounted.get());

    comp.unmount(&mut ctx);
    assert!(!comp.mounted.get());
}
