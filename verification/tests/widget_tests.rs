//! Tests for the view tree and the built-in widgets.

use rsdrav::event::Event;
use rsdrav::event::EventResult;
use rsdrav::event::KeyCode;
use rsdrav::event::KeyEvent;
use rsdrav::event::KeyModifiers;
use rsdrav::layout::Rect;
use rsdrav::render::Buffer;
use rsdrav::state::Signal;
use rsdrav::state::Store;
use rsdrav::theme::Style;
use rsdrav::view::widgets::ButtonState;
use rsdrav::view::Button;
use rsdrav::view::Component;
use rsdrav::view::ContainerDirection;
use rsdrav::view::EventContext;
use rsdrav::view::HStack;
use rsdrav::view::Input;
use rsdrav::view::List;
use rsdrav::view::Modal;
use rsdrav::view::MountContext;
use rsdrav::view::Panel;
use rsdrav::view::ProgressBar;
use rsdrav::view::RenderContext;
use rsdrav::view::Scrollable;
use rsdrav::view::SortOrder;
use rsdrav::view::Table;
use rsdrav::view::TableColumn;
use rsdrav::view::Tabs;
use rsdrav::view::Text;
use rsdrav::view::VStack;
use rsdrav::view::ViewNode;

#[test]
fn test_text_node_creation() {
    let node = ViewNode::text("Hello".to_string());
    match node {
        ViewNode::Text { content, .. } => {
            assert_eq!(content, "Hello");
        }
        _ => panic!("Expected Text node"),
    }
}

#[test]
fn test_container_with_children() {
    let children = vec![
        ViewNode::text("Line 1".to_string()),
        ViewNode::text("Line 2".to_string()),
    ];
    let container = ViewNode::container(children);

    match container {
        ViewNode::Container {
            children,
            direction,
            ..
        } => {
            assert_eq!(children.len(), 2);
            assert_eq!(direction, ContainerDirection::Vertical);
        }
        _ => panic!("Expected Container node"),
    }
}

#[test]
fn test_render_text_node() {
    let mut buffer = Buffer::new(40, 10);
    let area = Rect::new(0, 0, 40, 10);

    let node = ViewNode::text("Test".to_string());
    node.render(&mut buffer, area, Style::new());

    assert_eq!(buffer.get(0, 0).unwrap().ch, 'T');
    assert_eq!(buffer.get(1, 0).unwrap().ch, 'e');
    assert_eq!(buffer.get(2, 0).unwrap().ch, 's');
    assert_eq!(buffer.get(3, 0).unwrap().ch, 't');
}

struct TestComponent {
    value: Signal<i32>,
    mounted: bool,
}

impl TestComponent {
    fn new(value: i32) -> Self {
        Self {
            value: Signal::new(value),
            mounted: false,
        }
    }
}

impl Component for TestComponent {
    fn render(&self, _ctx: &RenderContext) -> ViewNode {
        ViewNode::text(format!("Value: {}", self.value.get()))
    }

    fn mount(&mut self, _ctx: &mut MountContext) {
        self.mounted = true;
    }

    fn unmount(&mut self, _ctx: &mut MountContext) {
        self.mounted = false;
    }
}

#[test]
fn component_test_component_lifecycle() {
    let mut comp = TestComponent::new(42);
    let store = Store::new();
    let mut ctx = MountContext { store: &store };

    assert!(!comp.mounted);

    comp.mount(&mut ctx);
    assert!(comp.mounted);

    comp.unmount(&mut ctx);
    assert!(!comp.mounted);
}

#[test]
fn test_component_render() {
    let comp = TestComponent::new(99);
    let store = Store::new();
    let area = Rect::new(0, 0, 40, 10);

    let ctx = RenderContext::new(area, &store);
    let node = comp.render(&ctx);

    match node {
        ViewNode::Text { content, .. } => {
            assert!(content.contains("99"));
        }
        _ => panic!("Expected text node"),
    }
}

#[test]
fn test_static_text() {
    let text = Text::new("Hello".to_string());
    let store = Store::new();
    let area = Rect::new(0, 0, 40, 10);

    let ctx = RenderContext::new(area, &store);
    let node = text.render(&ctx);

    match node {
        ViewNode::Text { content, .. } => {
            assert_eq!(content, "Hello");
        }
        _ => panic!("Expected text node"),
    }
}

#[test]
fn test_reactive_text() {
    let signal = Signal::new(42);
    let text = Text::bind({
        let s = signal.clone();
        move || format!("Value: {}", s.get())
    });

    let store = Store::new();
    let area = Rect::new(0, 0, 40, 10);

    let ctx = RenderContext::new(area, &store);
    let node = text.render(&ctx);

    match node {
        ViewNode::Text { content, .. } => {
            assert_eq!(content, "Value: 42");
        }
        _ => panic!("Expected text node"),
    }

    signal.set(99);
    let node = text.render(&ctx);

    match node {
        ViewNode::Text { content, .. } => {
            assert_eq!(content, "Value: 99");
        }
        _ => panic!("Expected text node"),
    }
}

#[test]
fn test_button_creation() {
    let clicked = Signal::new(false);
    let btn = Button::new("Test".to_string(), {
        let c = clicked.clone();
        move || c.set(true)
    });

    assert_eq!(btn.label, "Test");
    assert_eq!(btn.state, ButtonState::Normal);
}

#[test]
fn button_activates_on_enter() {
    let clicked = Signal::new(false);
    let mut btn = Button::new("Go".to_string(), {
        let c = clicked.clone();
        move || c.set(true)
    });

    let store = Store::new();
    let mut ctx = EventContext {
        store: &store,
        area: Rect::new(0, 0, 10, 1),
    };
    let event = Event::Key(KeyEvent::new(KeyCode::Enter, KeyModifiers::empty()));
    let result = btn.handle_event(&event, &mut ctx);

    assert_eq!(result, EventResult::Consumed);
    assert!(clicked.get());
}

#[test]
fn test_vstack_with_children() {
    let stack = VStack::new()
        .push(Text::new("Line 1".to_string()))
        .push(Text::new("Line 2".to_string()))
        .push(Text::new("Line 3".to_string()));

    assert_eq!(stack.children.len(), 3);
}

#[test]
fn test_hstack_creation() {
    let stack = HStack::new()
        .gap(2)
        .push(Text::new("Left".to_string()))
        .push(Text::new("Right".to_string()));

    assert_eq!(stack.children.len(), 2);
    assert_eq!(stack.gap, 2);
}

#[test]
fn test_panel_with_title() {
    let panel = Panel::new()
        .title("Test Panel".to_string())
        .child(Text::new("Content".to_string()));

    assert!(panel.title.is_some());
    assert_eq!(panel.title.unwrap(), "Test Panel");
}

#[test]
fn test_panel_render() {
    let panel = Panel::new()
        .title("Info".to_string())
        .child(Text::new("Test content".to_string()));

    let store = Store::new();
    let area = Rect::new(0, 0, 40, 10);
    let ctx = RenderContext::new(area, &store);

    let node = panel.render(&ctx);

    match node {
        ViewNode::Container { children, .. } => {
            assert!(children.len() >= 2);
        }
        _ => panic!("Expected container node"),
    }
}

#[test]
fn test_input_creation() {
    let value = Signal::new(String::new());
    let input = Input::new(value);
    assert_eq!(input.cursor_pos, 0);
    assert!(!input.password_mode);
}

#[test]
fn test_insert_char() {
    let value = Signal::new(String::new());
    let mut input = Input::new(value.clone()).focused(true);

    input.insert_char('h');
    assert_eq!(value.get(), "h");
    assert_eq!(input.cursor_pos, 1);

    input.insert_char('i');
    assert_eq!(value.get(), "hi");
    assert_eq!(input.cursor_pos, 2);
}

#[test]
fn test_delete_before_cursor() {
    let value = Signal::new("hello".to_string());
    let mut input = Input::new(value.clone()).focused(true);
    input.cursor_pos = 5;

    input.delete_before_cursor();
    assert_eq!(value.get(), "hell");
    assert_eq!(input.cursor_pos, 4);
}

#[test]
fn test_delete_at_cursor() {
    let value = Signal::new("hello".to_string());
    let mut input = Input::new(value.clone()).focused(true);
    input.cursor_pos = 0;

    input.delete_at_cursor();
    assert_eq!(value.get(), "ello");
    assert_eq!(input.cursor_pos, 0);
}

#[test]
fn test_cursor_movement() {
    let value = Signal::new("hello".to_string());
    let mut input = Input::new(value.clone()).focused(true);
    input.cursor_pos = 2;

    input.move_cursor_left();
    assert_eq!(input.cursor_pos, 1);

    input.move_cursor_right();
    assert_eq!(input.cursor_pos, 2);

    input.move_cursor_home();
    assert_eq!(input.cursor_pos, 0);

    input.move_cursor_end();
    assert_eq!(input.cursor_pos, 5);
}

#[test]
fn test_password_mode() {
    let value = Signal::new("secret".to_string());
    let input = Input::new(value).password();
    assert_eq!(input.display_text(), "******");
}

#[test]
fn test_max_length() {
    let value = Signal::new(String::new());
    let mut input = Input::new(value.clone()).max_length(3).focused(true);

    input.insert_char('a');
    input.insert_char('b');
    input.insert_char('c');
    input.insert_char('d');

    assert_eq!(value.get(), "abc");
}

#[test]
fn test_placeholder() {
    let value = Signal::new(String::new());
    let input = Input::new(value).placeholder("Enter text".to_string());
    assert_eq!(input.placeholder, Some("Enter text".to_string()));
}

#[test]
fn input_test_clear() {
    let value = Signal::new("hello".to_string());
    let mut input = Input::new(value.clone()).focused(true);
    input.cursor_pos = 5;

    input.clear();
    assert_eq!(value.get(), "");
    assert_eq!(input.cursor_pos, 0);
}

#[test]
fn test_insert_at_middle() {
    let value = Signal::new("hllo".to_string());
    let mut input = Input::new(value.clone()).focused(true);
    input.cursor_pos = 1;

    input.insert_char('e');
    assert_eq!(value.get(), "hello");
    assert_eq!(input.cursor_pos, 2);
}

#[test]
fn test_render_with_cursor() {
    let value = Signal::new("test".to_string());
    let mut input = Input::new(value).focused(true);
    input.cursor_pos = 2;

    let store = Store::new();
    let area = Rect::new(0, 0, 40, 10);
    let ctx = RenderContext::new(area, &store);

    let node = input.render(&ctx);

    match node {
        ViewNode::Text { content, .. } => {
            assert!(content.contains('|'));
            assert_eq!(content, "te|st");
        }
        _ => panic!("Expected text node"),
    }
}

#[test]
fn test_not_focused_ignores_events() {
    let value = Signal::new(String::new());
    let mut input = Input::new(value.clone()).focused(false);

    let store = Store::new();
    let mut ctx = EventContext {
        store: &store,
        area: Rect::new(0, 0, 40, 10),
    };

    let event = Event::Key(KeyEvent::new(KeyCode::Char('a'), KeyModifiers::empty()));

    let result = input.handle_event(&event, &mut ctx);
    assert_eq!(result, EventResult::Ignored);
    assert_eq!(value.get(), "");
}

#[test]
fn test_list_creation() {
    let items = Signal::new(vec![1, 2, 3]);
    let selected = Signal::new(Some(0));
    let list = List::new(items, selected);

    assert_eq!(list.scroll_offset, 0);
    assert_eq!(list.visible_height, 10);
}

#[test]
fn test_select_next() {
    let items = Signal::new(vec!["a", "b", "c"]);
    let selected = Signal::new(Some(0));
    let mut list = List::new(items.clone(), selected.clone());

    list.select_next();
    assert_eq!(selected.get(), Some(1));

    list.select_next();
    assert_eq!(selected.get(), Some(2));

    list.select_next();
    assert_eq!(selected.get(), Some(2));
}

#[test]
fn test_select_prev() {
    let items = Signal::new(vec!["a", "b", "c"]);
    let selected = Signal::new(Some(2));
    let mut list = List::new(items, selected.clone());

    list.select_prev();
    assert_eq!(selected.get(), Some(1));

    list.select_prev();
    assert_eq!(selected.get(), Some(0));

    list.select_prev();
    assert_eq!(selected.get(), Some(0));
}

#[test]
fn list_test_page_navigation() {
    let items = Signal::new((0..20).collect::<Vec<_>>());
    let selected = Signal::new(Some(0));
    let mut list = List::new(items, selected.clone()).visible_height(5);

    list.page_down();
    assert_eq!(selected.get(), Some(5));

    list.page_down();
    assert_eq!(selected.get(), Some(10));

    list.page_up();
    assert_eq!(selected.get(), Some(5));
}

#[test]
fn test_scrolling() {
    let items = Signal::new((0..20).collect::<Vec<_>>());
    let selected = Signal::new(Some(0));
    let mut list = List::new(items, selected.clone()).visible_height(5);

    for _ in 0..10 {
        list.select_next();
    }

    assert_eq!(selected.get(), Some(10));
    assert!(list.scroll_offset >= 6);
}

#[test]
fn test_home_end() {
    let items = Signal::new(vec![1, 2, 3, 4, 5]);
    let selected = Signal::new(Some(2));
    let mut list = List::new(items, selected.clone());

    list.select_last();
    assert_eq!(selected.get(), Some(4));

    list.select_first();
    assert_eq!(selected.get(), Some(0));
}

#[test]
fn test_empty_list() {
    let items = Signal::new(Vec::<String>::new());
    let selected = Signal::new(None);
    let mut list = List::new(items, selected.clone());

    list.select_next();
    assert_eq!(selected.get(), None);
}

#[test]
fn test_custom_renderer() {
    let items = Signal::new(vec!["apple", "banana"]);
    let selected = Signal::new(Some(0));

    let list = List::new(items, selected).render_item(|item: &&str, is_sel: bool| {
        let text = if is_sel {
            format!(">>> {}", item)
        } else {
            item.to_string()
        };
        ViewNode::text(text)
    });

    let store = Store::new();
    let area = Rect::new(0, 0, 40, 10);
    let ctx = RenderContext::new(area, &store);

    let node = list.render(&ctx);

    match node {
        ViewNode::Container { .. } => {}
        _ => panic!("Expected container node"),
    }
}

#[test]
fn test_modal_creation() {
    let visible = Signal::new(true);
    let modal = Modal::new(visible);
    assert!(modal.closable);
}

#[test]
fn modal_test_modal_visibility() {
    let visible = Signal::new(false);
    let _modal = Modal::new(visible.clone());

    assert!(!visible.get());
}

#[test]
fn test_modal_close() {
    let visible = Signal::new(true);
    let modal = Modal::new(visible.clone()).closable(true);

    modal.close();
    assert!(!visible.get());
}

#[test]
fn test_modal_with_title() {
    let visible = Signal::new(true);
    let modal = Modal::new(visible)
        .title("Test Modal".to_string())
        .child(Text::new("Content".to_string()));

    assert_eq!(modal.title, Some("Test Modal".to_string()));
}

#[test]
fn test_scrollable_creation() {
    let content = Text::new("Test content".to_string());
    let scrollable = Scrollable::new(content);

    assert_eq!(scrollable.viewport_height, 10);
    assert!(scrollable.scrollbar_shown);
}

#[test]
fn test_scroll_down() {
    let content = Text::new("Test".to_string());
    let mut scrollable = Scrollable::new(content).height(10);

    scrollable.content_height = 50;
    scrollable.scroll_down();

    assert_eq!(scrollable.scroll_offset.get(), 1);
}

#[test]
fn test_scroll_up() {
    let content = Text::new("Test".to_string());
    let mut scrollable = Scrollable::new(content);

    scrollable.scroll_offset.set(5);
    scrollable.scroll_up();

    assert_eq!(scrollable.scroll_offset.get(), 4);
}

#[test]
fn scrollable_test_page_navigation() {
    let content = Text::new("Test".to_string());
    let mut scrollable = Scrollable::new(content).height(10);

    scrollable.content_height = 100;
    scrollable.page_down();

    assert_eq!(scrollable.scroll_offset.get(), 10);

    scrollable.page_up();
    assert_eq!(scrollable.scroll_offset.get(), 0);
}

#[test]
fn test_scroll_to_top_bottom() {
    let content = Text::new("Test".to_string());
    let mut scrollable = Scrollable::new(content).height(10);

    scrollable.content_height = 100;
    scrollable.scroll_to_bottom();

    assert_eq!(scrollable.scroll_offset.get(), 90);

    scrollable.scroll_to_top();
    assert_eq!(scrollable.scroll_offset.get(), 0);
}

#[derive(Clone, Debug)]
struct TestRow {
    name: String,
    value: i32,
}

#[test]
fn test_table_creation() {
    let data = Signal::new(vec![
        TestRow {
            name: "A".into(),
            value: 1,
        },
        TestRow {
            name: "B".into(),
            value: 2,
        },
    ]);
    let selected = Signal::new(Some(0));

    let table = Table::new(data, selected)
        .column(TableColumn::new("Name".to_string(), 10).render(|r: &TestRow| r.name.clone()))
        .column(TableColumn::new("Value".to_string(), 5).render(|r: &TestRow| r.value.to_string()));

    assert_eq!(table.columns.len(), 2);
}

#[test]
fn test_table_navigation() {
    let data = Signal::new(vec![
        TestRow {
            name: "A".into(),
            value: 1,
        },
        TestRow {
            name: "B".into(),
            value: 2,
        },
        TestRow {
            name: "C".into(),
            value: 3,
        },
    ]);
    let selected = Signal::new(Some(0));
    let mut table = Table::new(data, selected.clone())
        .column(TableColumn::new("Name".to_string(), 10).render(|r: &TestRow| r.name.clone()));

    table.select_next();
    assert_eq!(selected.get(), Some(1));

    table.select_next();
    assert_eq!(selected.get(), Some(2));

    table.select_prev();
    assert_eq!(selected.get(), Some(1));
}

#[test]
fn test_column_render() {
    let data = Signal::new(vec![TestRow {
        name: "Test".into(),
        value: 42,
    }]);
    let selected = Signal::new(None);

    let table = Table::new(data.clone(), selected)
        .column(TableColumn::new("Name".to_string(), 10).render(|r: &TestRow| r.name.clone()))
        .column(TableColumn::new("Value".to_string(), 5).render(|r: &TestRow| r.value.to_string()));

    let rows = data.get();
    let formatted = table.format_row(&rows[0], false);
    assert!(formatted.contains("Test"));
    assert!(formatted.contains("42"));
}

#[test]
fn test_sort_toggle() {
    let data = Signal::new(vec![
        TestRow {
            name: "B".into(),
            value: 2,
        },
        TestRow {
            name: "A".into(),
            value: 1,
        },
    ]);
    let selected = Signal::new(None);
    let mut table = Table::new(data.clone(), selected).column(
        TableColumn::new("Name".to_string(), 10)
            .render(|r: &TestRow| r.name.clone())
            .sortable(),
    );

    assert_eq!(table.sort.get(), None);

    table.toggle_sort(0);
    assert_eq!(table.sort.get(), Some((0, SortOrder::Ascending)));
    let rows = data.get();
    assert_eq!(rows[0].name, "A");
    assert_eq!(rows[1].name, "B");

    table.toggle_sort(0);
    assert_eq!(table.sort.get(), Some((0, SortOrder::Descending)));
    let rows = data.get();
    assert_eq!(rows[0].name, "B");
    assert_eq!(rows[1].name, "A");

    table.toggle_sort(0);
    assert_eq!(table.sort.get(), None);
}

#[test]
fn test_tabs_creation() {
    let selected = Signal::new(0);
    let tabs = Tabs::new(selected);
    assert_eq!(tabs.tabs.len(), 0);
}

#[test]
fn test_add_tabs() {
    let selected = Signal::new(0);
    let tabs = Tabs::new(selected)
        .tab("Tab 1".to_string(), Text::new("Content 1".to_string()))
        .tab("Tab 2".to_string(), Text::new("Content 2".to_string()));

    assert_eq!(tabs.tabs.len(), 2);
}

#[test]
fn test_tab_navigation() {
    let selected = Signal::new(0);
    let mut tabs = Tabs::new(selected.clone())
        .tab("Tab 1".to_string(), Text::new("Content 1".to_string()))
        .tab("Tab 2".to_string(), Text::new("Content 2".to_string()))
        .tab("Tab 3".to_string(), Text::new("Content 3".to_string()));

    assert_eq!(selected.get(), 0);

    tabs.select_next();
    assert_eq!(selected.get(), 1);

    tabs.select_next();
    assert_eq!(selected.get(), 2);

    tabs.select_next();
    assert_eq!(selected.get(), 0);
}

#[test]
fn test_tab_prev_navigation() {
    let selected = Signal::new(1);
    let mut tabs = Tabs::new(selected.clone())
        .tab("Tab 1".to_string(), Text::new("Content 1".to_string()))
        .tab("Tab 2".to_string(), Text::new("Content 2".to_string()))
        .tab("Tab 3".to_string(), Text::new("Content 3".to_string()));

    tabs.select_prev();
    assert_eq!(selected.get(), 0);

    tabs.select_prev();
    assert_eq!(selected.get(), 2);
}

#[test]
fn test_progress_bar_creation() {
    let progress = Signal::new(500u16);
    let bar = ProgressBar::new(progress);
    assert_eq!(bar.width, 30);
    assert!(bar.show_percentage);
}

#[test]
fn test_progress_bar_render() {
    let progress = Signal::new(500u16);
    let bar = ProgressBar::new(progress).width(10);

    let rendered = bar.render_bar(500);
    assert_eq!(rendered.chars().count(), 10);
}

#[test]
fn test_progress_clamping() {
    let progress = Signal::new(1500u16);
    let bar = ProgressBar::new(progress).width(10);

    let rendered = bar.render_bar(1500);
    assert_eq!(rendered.chars().filter(|&c| c == '█').count(), 10);
}

#[test]
fn test_progress_bar_label() {
    let progress = Signal::new(750u16);
    let bar = ProgressBar::new(progress).label("Loading".to_string());

    assert_eq!(bar.label, Some("Loading".to_string()));
}

#[test]
fn test_zero_progress() {
    let progress = Signal::new(0u16);
    let bar = ProgressBar::new(progress).width(10);

    let rendered = bar.render_bar(0);
    assert_eq!(rendered.chars().filter(|&c| c == '░').count(), 10);
}

#[test]
fn test_full_progress() {
    let progress = Signal::new(1000u16);
    let bar = ProgressBar::new(progress).width(10);

    let rendered = bar.render_bar(1000);
    assert_eq!(rendered.chars().filter(|&c| c == '█').count(), 10);
}
