//! Tests for the command engine: parsing, handlers, undo, help and
//! completion.

use rsdrav::command::complete::ListCompleter;
use rsdrav::command::handler::EchoHandler;
use rsdrav::command::handler::QuitHandler;
use rsdrav::command::help::CommandHelp;
use rsdrav::command::help::HelpSystem;
use rsdrav::command::parse;
use rsdrav::command::CommandRegistry;
use rsdrav::command::undo::ValueChangeAction;
use rsdrav::command::Command;
use rsdrav::command::CommandContext;
use rsdrav::command::CommandHandler;
use rsdrav::command::Completer;
use rsdrav::command::CompletionItem;
use rsdrav::command::UndoAction;
use rsdrav::command::UndoStack;
use rsdrav::state::Signal;
use rsdrav::state::Store;

#[test]
fn test_parse_simple() {
    let cmd = parse("echo hello world").unwrap();
    assert_eq!(cmd.name, "echo");
    assert_eq!(cmd.args, vec!["hello", "world"]);
}

#[test]
fn test_parse_quoted() {
    let cmd = parse(r#"echo "hello world""#).unwrap();
    assert_eq!(cmd.name, "echo");
    assert_eq!(cmd.args, vec!["hello world"]);
}

#[test]
fn test_parse_single_quotes() {
    let cmd = parse("echo 'hello world'").unwrap();
    assert_eq!(cmd.name, "echo");
    assert_eq!(cmd.args, vec!["hello world"]);
}

#[test]
fn test_parse_mixed_quotes() {
    let cmd = parse(r#"cmd "arg 1" arg2 'arg 3'"#).unwrap();
    assert_eq!(cmd.name, "cmd");
    assert_eq!(cmd.args, vec!["arg 1", "arg2", "arg 3"]);
}

#[test]
fn test_parse_escaped() {
    let cmd = parse(r"echo hello\ world").unwrap();
    assert_eq!(cmd.args, vec!["hello world"]);
}

#[test]
fn test_parse_empty() {
    assert!(parse("").is_err());
    assert!(parse("   ").is_err());
}

#[test]
fn test_parse_unclosed_quote() {
    assert!(parse(r#"echo "unclosed"#).is_err());
}

#[test]
fn test_command_builder() {
    let cmd = Command::new("test".to_string())
        .arg("arg1".to_string())
        .arg("arg2".to_string());

    assert_eq!(cmd.name, "test");
    assert_eq!(cmd.args, vec!["arg1", "arg2"]);
}

#[test]
fn test_echo_handler() {
    let mut handler = EchoHandler;
    let mut ctx = CommandContext::new(Store::new());
    let cmd = Command::new("echo".to_string())
        .arg("hello".to_string())
        .arg("world".to_string());

    let result = handler.execute(cmd, &mut ctx).unwrap();
    assert_eq!(result.message, Some("hello world".to_string()));
}

#[test]
fn test_quit_handler() {
    let mut handler = QuitHandler;
    let mut ctx = CommandContext::new(Store::new());
    let cmd = Command::new("quit".to_string());

    handler.execute(cmd, &mut ctx).unwrap();

    let should_quit: Signal<bool> = ctx.store.get("app:should_quit").unwrap();
    assert!(should_quit.get());
}

#[test]
fn registry_executes_by_name() {
    let mut registry = CommandRegistry::new();
    registry.register("echo", EchoHandler);
    let mut ctx = CommandContext::new(Store::new());

    let result = registry.execute_line("echo one two", &mut ctx).unwrap();
    assert_eq!(result.message, Some("one two".to_string()));

    assert!(registry.has_command("echo"));
    assert!(!registry.has_command("missing"));
    assert!(registry.execute_line("missing", &mut ctx).is_err());
}

#[test]
fn test_undo_stack_push() {
    let mut stack = UndoStack::new(10);

    let action = ValueChangeAction::new("test".to_string(), 10, 42);
    stack.push(UndoAction::new(action));
    assert_eq!(stack.undo_len(), 1);
    assert!(stack.can_undo());
    assert!(!stack.can_redo());
}

#[test]
fn test_undo_stack_max_size() {
    let mut stack = UndoStack::new(3);

    stack.push(UndoAction::new(ValueChangeAction::new("cmd1".to_string(), 0, 1)));
    stack.push(UndoAction::new(ValueChangeAction::new("cmd2".to_string(), 0, 2)));
    stack.push(UndoAction::new(ValueChangeAction::new("cmd3".to_string(), 0, 3)));
    stack.push(UndoAction::new(ValueChangeAction::new("cmd4".to_string(), 0, 4)));

    assert_eq!(stack.undo_len(), 3);
}

#[test]
fn test_undo_redo() {
    let mut stack = UndoStack::new(10);

    let action = ValueChangeAction::new("change".to_string(), 10, 20);
    stack.push(UndoAction::new(action));

    let undone = stack.undo();
    assert!(undone.is_some());
    assert_eq!(stack.undo_len(), 0);
    assert_eq!(stack.redo_len(), 1);

    let redone = stack.redo();
    assert!(redone.is_some());
    assert_eq!(stack.undo_len(), 1);
    assert_eq!(stack.redo_len(), 0);
}

#[test]
fn undo_test_clear() {
    let mut stack = UndoStack::new(10);

    let action = ValueChangeAction::new("test".to_string(), 0, 42);
    stack.push(UndoAction::new(action));
    assert_eq!(stack.undo_len(), 1);

    stack.clear();
    assert_eq!(stack.undo_len(), 0);
    assert_eq!(stack.redo_len(), 0);
}

#[test]
fn test_command_help_creation() {
    let help = CommandHelp::new("test".to_string())
        .description("A test command".to_string())
        .usage("test <arg>".to_string())
        .example("test foo".to_string())
        .see_also("other".to_string());

    assert_eq!(help.name, "test");
    assert_eq!(help.description, "A test command");
    assert_eq!(help.examples.len(), 1);
    assert_eq!(help.see_also.len(), 1);
}

#[test]
fn test_help_system() {
    let mut system = HelpSystem::new();

    system.register(CommandHelp::new("foo".to_string()).description("Foo command".to_string()));

    assert!(system.get("foo").is_some());
    assert!(system.get("bar").is_none());
}

#[test]
fn test_help_text_formatting() {
    let help = CommandHelp::new("example".to_string())
        .description("Example command".to_string())
        .usage("example [options]".to_string())
        .example("example --verbose".to_string());

    let formatted = help.format();
    assert!(formatted.contains("Command: example"));
    assert!(formatted.contains("Example command"));
    assert!(formatted.contains("Usage:"));
    assert!(formatted.contains("Examples:"));
}

#[test]
fn test_list_all_commands() {
    let system = HelpSystem::new();
    let help_text = system.help_text(None);

    assert!(help_text.contains("Available commands"));
    assert!(help_text.contains("help"));
    assert!(help_text.contains("quit"));
}

#[test]
fn test_specific_command_help() {
    let system = HelpSystem::new();
    let help_text = system.help_text(Some("help"));

    assert!(help_text.contains("Command: help"));
    assert!(help_text.contains("Show help for commands"));
}

#[test]
fn test_completion_item() {
    let item = CompletionItem::new("test".to_string()).with_description("A test item".to_string());

    assert_eq!(item.text, "test");
    assert_eq!(item.description, Some("A test item".to_string()));
}

#[test]
fn test_list_completer() {
    let completer = ListCompleter::new(vec![
        "hello".to_string(),
        "help".to_string(),
        "world".to_string(),
    ]);

    let results = completer.complete(&Vec::new(), "hel");
    assert_eq!(results.len(), 2);
    assert!(results.iter().any(|c| c.text == "hello"));
    assert!(results.iter().any(|c| c.text == "help"));
}

#[test]
fn test_list_completer_no_match() {
    let completer = ListCompleter::new(vec!["hello".to_string(), "world".to_string()]);

    let results = completer.complete(&Vec::new(), "xyz");
    assert_eq!(results.len(), 0);
}

#[test]
fn parse_keeps_name_and_argument_order() {
    let cmd = parse("move north fast").unwrap();
    assert_eq!(cmd.name, "move");
    assert_eq!(cmd.args, vec!["north", "fast"]);
}

#[test]
fn parse_handles_tabs_as_separators() {
    let cmd = parse("a\tb\tc").unwrap();
    assert_eq!(cmd.name, "a");
    assert_eq!(cmd.args, vec!["b", "c"]);
}

#[test]
fn undo_of_value_change_restores_old_value() {
    let mut action = ValueChangeAction::new("set".to_string(), 1, 2);
    assert_eq!(*action.current(), 2);
    assert!(rsdrav::command::undo::UndoableAction::undo(&mut action));
    assert_eq!(*action.current(), 1);
    assert!(rsdrav::command::undo::UndoableAction::redo(&mut action));
    assert_eq!(*action.current(), 2);
}

struct TagHandler {
    tag: &'static str,
}

impl CommandHandler for TagHandler {
    fn execute(
        &mut self,
        _cmd: Command,
        _ctx: &mut CommandContext,
    ) -> Result<rsdrav::command::CommandResult, rsdrav::error::Error> {
        Ok(rsdrav::command::CommandResult::success_with_message(
            self.tag.to_string(),
        ))
    }
}

#[test]
fn reregistering_a_name_replaces_the_handler() {
    let mut registry = CommandRegistry::new();
    registry.register("go", TagHandler { tag: "first" });
    registry.register("go", TagHandler { tag: "second" });
    let mut ctx = CommandContext::new(Store::new());

    assert_eq!(registry.command_names().len(), 1);
    let result = registry.execute_line("go", &mut ctx).unwrap();
    assert_eq!(result.message, Some("second".to_string()));
}

#[test]
fn execute_keeps_registration_order() {
    let mut registry = CommandRegistry::new();
    registry.register("a", TagHandler { tag: "a" });
    registry.register("b", TagHandler { tag: "b" });
    registry.register("c", TagHandler { tag: "c" });
    let mut ctx = CommandContext::new(Store::new());

    registry.execute_line("b", &mut ctx).unwrap();
    assert_eq!(registry.command_names(), vec!["a", "b", "c"]);

    registry.execute_line("a", &mut ctx).unwrap();
    assert_eq!(registry.command_names(), vec!["a", "b", "c"]);
}
