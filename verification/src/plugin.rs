//! A capability-based plugin registry.
//!
//! Plugins declare the capabilities they need; the manager refuses any
//! plugin that asks for a capability the policy denies.

use vstd::prelude::*;

use crate::error::Error;
use crate::error::PluginError;
use crate::command::clone_str;
use crate::state::store::str_equal;

verus! {

/// What a plugin may ask permission for.
#[derive(Debug, Clone, PartialEq, Eq, Hash, Structural)]
pub enum Capability {
    /// Read from the filesystem.
    FileRead,
    /// Write to the filesystem.
    FileWrite,
    /// Make network requests.
    Network,
    /// Execute commands.
    Execute,
    /// Access environment variables.
    Environment,
    /// Register custom widgets.
    CustomWidgets,
    /// Register commands.
    RegisterCommands,
    /// Access application state.
    StateAccess,
}

/// The fixed policy: executing commands and writing files are denied, all
/// other capabilities are allowed.
pub open spec fn capability_allowed(c: Capability) -> bool {
    !(c == Capability::Execute || c == Capability::FileWrite)
}

/// The contract every plugin implements.
pub trait Plugin {
    /// The plugin's name; the registry key.
    fn name(&self) -> &str;

    /// The plugin's version.
    fn version(&self) -> &str;

    /// The capabilities this plugin needs.
    fn required_capabilities(&self) -> Vec<Capability>;

    /// Called once when the plugin is registered and started.
    fn init(&mut self) -> Result<(), Error>;

    /// Called once when the plugin is unloaded.
    fn cleanup(&mut self) -> Result<(), Error>;
}

/// Loads plugins and enforces the capability policy.
pub struct PluginManager {
    pub plugins: Vec<(String, Box<dyn Plugin>)>,
    pub capabilities: Vec<(String, Vec<Capability>)>,
}

impl PluginManager {
    pub fn new() -> (r: PluginManager)
        ensures
            r.plugins@.len() == 0,
            r.capabilities@.len() == 0,
    {
        PluginManager { plugins: Vec::new(), capabilities: Vec::new() }
    }

    /// Register a plugin.  Fails, leaving the registry unchanged, when the
    /// plugin requires a capability the policy denies.
    #[verifier::loop_isolation(false)]
    pub fn register(&mut self, plugin: Box<dyn Plugin>) -> (r: Result<(), Error>)
        ensures
            r is Ok ==> final(self).plugins@.len() == old(self).plugins@.len() + 1
                && final(self).capabilities@.len() == old(self).capabilities@.len() + 1,
            r is Err ==> final(self).plugins@ == old(self).plugins@
                && final(self).capabilities@ == old(self).capabilities@,
    {
        let name = plugin.name().to_owned();
        let caps = plugin.required_capabilities();
        let mut i: usize = 0;
        while i < caps.len()
            invariant
                0 <= i <= caps@.len(),
                self.plugins@ == old(self).plugins@,
                self.capabilities@ == old(self).capabilities@,
                forall|k: int| 0 <= k < i ==> capability_allowed(caps@[k]),
            decreases caps@.len() - i,
        {
            if !capability_allowed_exec(&caps[i]) {
                return Err(
                    Error::Plugin(
                        PluginError::CapabilityDenied(
                            String::from_str("the capability policy denies this plugin"),
                        ),
                    ),
                );
            }
            i = i + 1;
        }
        let name2 = clone_str(&name);
        self.capabilities.push((name2, caps));
        push_plugin(&mut self.plugins, (name, plugin));
        Ok(())
    }

    /// Start every registered plugin, stopping at the first failure.
    #[verifier::loop_isolation(false)]
    pub fn init_all(&mut self) -> (r: Result<(), Error>)
        ensures
            final(self).plugins@.len() == old(self).plugins@.len(),
            final(self).capabilities@ == old(self).capabilities@,
    {
        let ghost n = self.plugins@.len();
        let mut done: Vec<(String, Box<dyn Plugin>)> = Vec::new();
        while self.plugins.len() > 0
            invariant
                done@.len() + self.plugins@.len() == n,
                self.capabilities@ == old(self).capabilities@,
            decreases self.plugins@.len(),
        {
            let mut entry = self.plugins.remove(0);
            let res = entry.1.init();
            push_plugin(&mut done, entry);
            match res {
                Ok(u) => {},
                Err(e) => {
                    while self.plugins.len() > 0
                        invariant
                            done@.len() + self.plugins@.len() == n,
                            self.capabilities@ == old(self).capabilities@,
                        decreases self.plugins@.len(),
                    {
                        let rest = self.plugins.remove(0);
                        push_plugin(&mut done, rest);
                    }
                    self.plugins = done;
                    return Err(e);
                },
            }
        }
        self.plugins = done;
        Ok(())
    }

    /// Shut every registered plugin down, stopping at the first failure.
    #[verifier::loop_isolation(false)]
    pub fn cleanup_all(&mut self) -> (r: Result<(), Error>)
        ensures
            final(self).plugins@.len() == old(self).plugins@.len(),
            final(self).capabilities@ == old(self).capabilities@,
    {
        let ghost n = self.plugins@.len();
        let mut done: Vec<(String, Box<dyn Plugin>)> = Vec::new();
        while self.plugins.len() > 0
            invariant
                done@.len() + self.plugins@.len() == n,
                self.capabilities@ == old(self).capabilities@,
            decreases self.plugins@.len(),
        {
            let mut entry = self.plugins.remove(0);
            let res = entry.1.cleanup();
            push_plugin(&mut done, entry);
            match res {
                Ok(u) => {},
                Err(e) => {
                    while self.plugins.len() > 0
                        invariant
                            done@.len() + self.plugins@.len() == n,
                            self.capabilities@ == old(self).capabilities@,
                        decreases self.plugins@.len(),
                    {
                        let rest = self.plugins.remove(0);
                        push_plugin(&mut done, rest);
                    }
                    self.plugins = done;
                    return Err(e);
                },
            }
        }
        self.plugins = done;
        Ok(())
    }

    /// The plugin registered under `name`, if any.
    #[verifier::loop_isolation(false)]
    pub fn get(&self, name: &str) -> (r: Option<&Box<dyn Plugin>>)
        ensures
            r is Some ==> exists|i: int|
                0 <= i < self.plugins@.len() && self.plugins@[i].0@ == name@,
    {
        let mut i: usize = 0;
        while i < self.plugins.len()
            invariant
                0 <= i <= self.plugins@.len(),
            decreases self.plugins@.len() - i,
        {
            if str_equal(self.plugins[i].0.as_str(), name) {
                proof {
                    assert(self.plugins@[i as int].0@ == name@);
                }
                return Some(&self.plugins[i].1);
            }
            i = i + 1;
        }
        None
    }

    /// The names of all registered plugins.
    #[verifier::loop_isolation(false)]
    pub fn list_plugins(&self) -> (r: Vec<String>)
        ensures
            r@.len() == self.plugins@.len(),
            forall|i: int| 0 <= i < r@.len() ==> r@[i]@ == self.plugins@[i].0@,
    {
        let mut names: Vec<String> = Vec::new();
        let mut i: usize = 0;
        while i < self.plugins.len()
            invariant
                0 <= i <= self.plugins@.len(),
                names@.len() == i,
                forall|k: int| 0 <= k < i ==> names@[k]@ == self.plugins@[k].0@,
            decreases self.plugins@.len() - i,
        {
            names.push(clone_str(&self.plugins[i].0));
            i = i + 1;
        }
        names
    }
}

/// Relies on `Vec::push`: appends the element at the end.  The standard
/// push specification does not instantiate at an element type that holds a
/// trait object, so the length facts are restated here.
#[verifier::external_body]
fn push_plugin(v: &mut Vec<(String, Box<dyn Plugin>)>, e: (String, Box<dyn Plugin>))
    ensures
        final(v)@.len() == old(v)@.len() + 1,
        forall|k: int| 0 <= k < old(v)@.len() ==> final(v)@[k] == old(v)@[k],
{
    v.push(e);
}

impl Default for PluginManager {
    fn default() -> (r: PluginManager)
        ensures
            r.plugins@.len() == 0,
            r.capabilities@.len() == 0,
    {
        PluginManager::new()
    }
}

/// Whether the policy allows a capability; matches `capability_allowed`.
fn capability_allowed_exec(c: &Capability) -> (r: bool)
    ensures
        r == capability_allowed(*c),
{
    match c {
        Capability::Execute => false,
        Capability::FileWrite => false,
        _ => true,
    }
}

/// A tiny built-in plugin that only registers custom widgets; handy as a
/// smoke test for the registry.
pub struct ExamplePlugin {
    pub name: String,
    pub initialized: bool,
}

impl ExamplePlugin {
    pub fn new(name: String) -> (r: ExamplePlugin)
        ensures
            r.name@ == name@,
            !r.initialized,
    {
        ExamplePlugin { name, initialized: false }
    }
}

impl Plugin for ExamplePlugin {
    fn name(&self) -> &str {
        self.name.as_str()
    }

    fn version(&self) -> &str {
        "0.1.0"
    }

    fn required_capabilities(&self) -> Vec<Capability> {
        let mut v: Vec<Capability> = Vec::new();
        v.push(Capability::CustomWidgets);
        v
    }

    fn init(&mut self) -> Result<(), Error> {
        self.initialized = true;
        Ok(())
    }

    fn cleanup(&mut self) -> Result<(), Error> {
        self.initialized = false;
        Ok(())
    }
}

} // verus!
