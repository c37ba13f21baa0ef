//! Command handlers, their execution context and results.

use vstd::prelude::*;

use crate::command::Command;
use crate::error::Error;
use crate::plugin::PluginManager;
use crate::state::Store;

verus! {

/// A pub-sub bus for messages between commands; all clones share one
/// queue.  Opaque to verification: what comes out depends on what other
/// holders of the bus have published.
#[verifier::external_body]
pub struct EventBus {
    sender: crossbeam_channel::Sender<(String, Vec<u8>)>,
    receiver: std::sync::Arc<std::sync::Mutex<crossbeam_channel::Receiver<(String, Vec<u8>)>>>,
}

impl EventBus {
    /// Relies on `crossbeam_channel::unbounded`: a fresh, empty queue.
    #[verifier::external_body]
    pub fn new() -> EventBus {
        let (sender, receiver) = crossbeam_channel::unbounded();
        EventBus { sender, receiver: std::sync::Arc::new(std::sync::Mutex::new(receiver)) }
    }

    /// Relies on `Sender::send` on an unbounded channel: enqueues the
    /// message; a send on a queue whose receiver is gone is dropped.
    #[verifier::external_body]
    pub fn publish(&self, event_name: String, data: Vec<u8>) {
        let _ = self.sender.send((event_name, data));
    }

    /// Relies on `Receiver::try_recv`: the oldest queued message, or
    /// nothing when the queue is empty.  Which message comes out depends
    /// on every holder of this bus, so nothing more is promised.
    #[verifier::external_body]
    pub fn try_recv(&self) -> Option<(String, Vec<u8>)> {
        self.receiver.lock().unwrap().try_recv().ok()
    }
}

impl Clone for EventBus {
    /// Relies on `Sender::clone` and `Arc::clone`: another handle to the
    /// same queue.
    #[verifier::external_body]
    fn clone(&self) -> EventBus {
        EventBus { sender: self.sender.clone(), receiver: std::sync::Arc::clone(&self.receiver) }
    }
}

impl Default for EventBus {
    fn default() -> EventBus {
        EventBus::new()
    }
}

/// What a command handler gets to work with.
pub struct CommandContext {
    pub store: Store,
    pub event_bus: EventBus,
    pub plugin_manager: PluginManager,
}

impl CommandContext {
    pub fn new(store: Store) -> CommandContext {
        CommandContext { store, event_bus: EventBus::new(), plugin_manager: PluginManager::new() }
    }

    /// This context with the given plugin manager.
    pub fn with_plugin_manager(self, plugin_manager: PluginManager) -> CommandContext {
        CommandContext { plugin_manager, ..self }
    }
}

/// A value a command stores for a later undo, type-erased; opaque to
/// verification.
#[verifier::external_body]
pub struct AnyValue {
    inner: Box<dyn std::any::Any + Send + Sync>,
}

/// Relies on `Box::new`: wraps a value for type-erased storage.
#[verifier::external_body]
fn any_value_new<D: std::any::Any + Send + Sync + 'static>(data: D) -> AnyValue {
    AnyValue { inner: Box::new(data) }
}

/// What a command execution reports back.
pub struct CommandResult {
    /// An optional success message.
    pub message: Option<String>,
    /// Whether the screen should be redrawn.
    pub needs_redraw: bool,
    /// Optional data for a later undo of this command.
    pub undo_data: Option<AnyValue>,
}

impl CommandResult {
    pub fn success() -> (r: CommandResult)
        ensures
            r.message is None,
            !r.needs_redraw,
            r.undo_data is None,
    {
        CommandResult { message: None, needs_redraw: false, undo_data: None }
    }

    pub fn success_with_message(msg: String) -> (r: CommandResult)
        ensures
            r.message matches Some(m) && m@ == msg@,
            !r.needs_redraw,
            r.undo_data is None,
    {
        CommandResult { message: Some(msg), needs_redraw: false, undo_data: None }
    }

    /// This result with a redraw requested.
    pub fn with_redraw(self) -> (r: CommandResult)
        ensures
            r.message == self.message,
            r.needs_redraw,
            r.undo_data == self.undo_data,
    {
        CommandResult { needs_redraw: true, ..self }
    }

    /// This result carrying undo data.
    pub fn with_undo<D: std::any::Any + Send + Sync + 'static>(self, data: D) -> (r:
        CommandResult)
        ensures
            r.message == self.message,
            r.needs_redraw == self.needs_redraw,
            r.undo_data is Some,
    {
        CommandResult { undo_data: Some(any_value_new(data)), ..self }
    }
}

/// The contract every command implements.
pub trait CommandHandler {
    /// Run the command.
    fn execute(&mut self, cmd: Command, ctx: &mut CommandContext) -> Result<CommandResult, Error>;

    /// A short description for help output.
    fn description(&self) -> &str {
        "No description available"
    }

    /// A usage line for help output.
    fn usage(&self) -> &str {
        ""
    }
}

/// Echoes its arguments, joined by single spaces.
pub struct EchoHandler;

impl CommandHandler for EchoHandler {
    fn execute(&mut self, cmd: Command, ctx: &mut CommandContext) -> Result<CommandResult, Error> {
        let message = join_spaces(&cmd.args);
        Ok(CommandResult::success_with_message(message))
    }

    fn description(&self) -> &str {
        "Print arguments to output"
    }

    fn usage(&self) -> &str {
        "echo [args...]"
    }
}

/// The arguments joined by single spaces.
pub open spec fn spec_joined(args: Seq<Seq<char>>) -> Seq<char>
    decreases args.len(),
{
    if args.len() == 0 {
        Seq::empty()
    } else if args.len() == 1 {
        args[0]
    } else {
        spec_joined(args.drop_last()) + seq![' '] + args.last()
    }
}

/// The arguments joined by single spaces; empty for no arguments.
#[verifier::loop_isolation(false)]
pub fn join_spaces(args: &Vec<String>) -> (r: String)
    ensures
        r@ == spec_joined(args.deep_view()),
{
    let ghost dv = args.deep_view();
    let mut out = String::new();
    let mut i: usize = 0;
    proof {
        assert(dv.len() == args@.len());
        assert(dv.take(0) =~= Seq::<Seq<char>>::empty());
    }
    while i < args.len()
        invariant
            0 <= i <= args@.len(),
            dv == args.deep_view(),
            dv.len() == args@.len(),
            forall|k: int| 0 <= k < dv.len() ==> dv[k] == args@[k]@,
            out@ == spec_joined(dv.take(i as int)),
        decreases args@.len() - i,
    {
        if i > 0 {
            proof {
                reveal_strlit(" ");
                assert(" "@ =~= seq![' ']);
            }
            out.append(" ");
        }
        out.append(args[i].as_str());
        proof {
            assert(dv.take(i as int + 1).drop_last() =~= dv.take(i as int));
            assert(dv.take(i as int + 1).last() == dv[i as int]);
            if i == 0 {
                assert(out@ =~= dv[0]);
                assert(spec_joined(dv.take(1)) == dv.take(1)[0]);
                assert(dv.take(1)[0] == dv[0]);
            } else {
                assert(out@ =~= spec_joined(dv.take(i as int)) + seq![' '] + dv[i as int]);
            }
        }
        i = i + 1;
    }
    proof {
        assert(dv.take(dv.len() as int) =~= dv);
    }
    out
}

/// Quits the application by raising the quit flag in the store.
pub struct QuitHandler;

impl CommandHandler for QuitHandler {
    fn execute(&mut self, cmd: Command, ctx: &mut CommandContext) -> Result<CommandResult, Error> {
        ctx.store.set("app:should_quit", true);
        Ok(CommandResult::success().with_redraw())
    }

    fn description(&self) -> &str {
        "Exit the application"
    }

    fn usage(&self) -> &str {
        "quit"
    }
}

} // verus!
