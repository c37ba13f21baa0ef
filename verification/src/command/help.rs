//! Built-in help for registered commands.

use vstd::prelude::*;

use crate::command::clone_str;
use crate::state::store::str_equal;

verus! {

/// The documentation of one command.
#[derive(Clone, Debug)]
pub struct CommandHelp {
    pub name: String,
    pub description: String,
    pub usage: String,
    pub examples: Vec<String>,
    pub see_also: Vec<String>,
}

impl CommandHelp {
    pub fn new(name: String) -> (r: CommandHelp)
        ensures
            r.name@ == name@,
            r.description@.len() == 0,
            r.usage@.len() == 0,
            r.examples@.len() == 0,
            r.see_also@.len() == 0,
    {
        CommandHelp {
            name,
            description: String::new(),
            usage: String::new(),
            examples: Vec::new(),
            see_also: Vec::new(),
        }
    }

    /// This help with the description set.
    pub fn description(self, desc: String) -> (r: CommandHelp)
        ensures
            r.name@ == self.name@,
            r.description@ == desc@,
            r.usage == self.usage,
            r.examples == self.examples,
            r.see_also == self.see_also,
    {
        CommandHelp { description: desc, ..self }
    }

    /// This help with the usage line set.
    pub fn usage(self, usage: String) -> (r: CommandHelp)
        ensures
            r.name@ == self.name@,
            r.usage@ == usage@,
            r.description == self.description,
            r.examples == self.examples,
            r.see_also == self.see_also,
    {
        CommandHelp { usage, ..self }
    }

    /// This help with one more example.
    pub fn example(self, example: String) -> (r: CommandHelp)
        ensures
            r.name@ == self.name@,
            r.examples@ == self.examples@.push(example),
            r.description == self.description,
            r.usage == self.usage,
            r.see_also == self.see_also,
    {
        let mut h = self;
        h.examples.push(example);
        h
    }

    /// This help with one more related command.
    pub fn see_also(self, cmd: String) -> (r: CommandHelp)
        ensures
            r.name@ == self.name@,
            r.see_also@ == self.see_also@.push(cmd),
            r.description == self.description,
            r.usage == self.usage,
            r.examples == self.examples,
    {
        let mut h = self;
        h.see_also.push(cmd);
        h
    }

    /// Format this help as a multi-line text: the name, the description,
    /// the usage, the examples and the related commands, each section only
    /// when present.
    #[verifier::loop_isolation(false)]
    pub fn format(&self) -> String {
        let mut out = String::new();
        out.append("Command: ");
        out.append(self.name.as_str());
        out.append("\n");
        if self.description.as_str().unicode_len() > 0 {
            out.append("\n");
            out.append(self.description.as_str());
            out.append("\n");
        }
        if self.usage.as_str().unicode_len() > 0 {
            out.append("\nUsage:\n  ");
            out.append(self.usage.as_str());
            out.append("\n");
        }
        if self.examples.len() > 0 {
            out.append("\nExamples:\n");
            let mut i: usize = 0;
            while i < self.examples.len()
                invariant
                    0 <= i <= self.examples@.len(),
                decreases self.examples@.len() - i,
            {
                out.append("  ");
                out.append(self.examples[i].as_str());
                out.append("\n");
                i = i + 1;
            }
        }
        if self.see_also.len() > 0 {
            out.append("\nSee also: ");
            let mut i: usize = 0;
            while i < self.see_also.len()
                invariant
                    0 <= i <= self.see_also@.len(),
                decreases self.see_also@.len() - i,
            {
                if i > 0 {
                    out.append(", ");
                }
                out.append(self.see_also[i].as_str());
                i = i + 1;
            }
            out.append("\n");
        }
        out
    }
}

/// Holds help texts and renders them.
pub struct HelpSystem {
    pub help_texts: Vec<CommandHelp>,
}

impl HelpSystem {
    /// A help system already holding the built-in help and quit entries.
    pub fn new() -> (r: HelpSystem)
        ensures
            1 <= r.help_texts@.len() <= 2,
    {
        let mut system = HelpSystem { help_texts: Vec::new() };
        system.register(
            CommandHelp::new("help".to_owned()).description(
                "Show help for commands".to_owned(),
            ).usage("help [command]".to_owned()).example("help".to_owned()).example(
                "help quit".to_owned(),
            ),
        );
        system.register(
            CommandHelp::new("quit".to_owned()).description(
                "Exit the application".to_owned(),
            ).usage("quit".to_owned()).example("quit".to_owned()),
        );
        system
    }

    /// Add or replace the help of one command.
    #[verifier::loop_isolation(false)]
    pub fn register(&mut self, help: CommandHelp)
        ensures
            final(self).help_texts@.len() <= old(self).help_texts@.len() + 1,
            final(self).help_texts@.len() >= 1,
    {
        let mut i: usize = 0;
        while i < self.help_texts.len()
            invariant
                0 <= i <= self.help_texts@.len(),
                self.help_texts@ == old(self).help_texts@,
            decreases self.help_texts@.len() - i,
        {
            if str_equal(self.help_texts[i].name_str(), help.name_str()) {
                let dropped = self.help_texts.remove(i);
                self.help_texts.push(help);
                return ;
            }
            i = i + 1;
        }
        self.help_texts.push(help);
    }

    /// The help of one command, if registered.
    #[verifier::loop_isolation(false)]
    pub fn get(&self, command: &str) -> (r: Option<&CommandHelp>)
        ensures
            r matches Some(h) ==> h.name@ == command@,
    {
        let mut i: usize = 0;
        while i < self.help_texts.len()
            invariant
                0 <= i <= self.help_texts@.len(),
            decreases self.help_texts@.len() - i,
        {
            if str_equal(self.help_texts[i].name_str(), command) {
                return Some(&self.help_texts[i]);
            }
            i = i + 1;
        }
        None
    }

    /// The registered command names, sorted.
    #[verifier::loop_isolation(false)]
    pub fn list_commands(&self) -> (r: Vec<String>)
        ensures
            r@.len() == self.help_texts@.len(),
    {
        let mut names: Vec<String> = Vec::new();
        let mut i: usize = 0;
        while i < self.help_texts.len()
            invariant
                0 <= i <= self.help_texts@.len(),
                names@.len() == i,
            decreases self.help_texts@.len() - i,
        {
            names.push(clone_str(&self.help_texts[i].name));
            i = i + 1;
        }
        sort_names(&mut names);
        names
    }

    /// The help text for one command, or an overview of all commands.
    #[verifier::loop_isolation(false)]
    pub fn help_text(&self, command: Option<&str>) -> String {
        match command {
            Some(cmd) => {
                match self.get(cmd) {
                    Some(help) => help.format(),
                    None => {
                        let mut out = String::new();
                        out.append("No help available for '");
                        out.append(cmd);
                        out.append("'\n\nTry 'help' to see all commands.");
                        out
                    },
                }
            },
            None => {
                let mut out = String::new();
                out.append("Available commands:\n\n");
                let names = self.list_commands();
                let mut i: usize = 0;
                while i < names.len()
                    invariant
                        0 <= i <= names@.len(),
                    decreases names@.len() - i,
                {
                    match self.get(names[i].as_str()) {
                        Some(help) => {
                            out.append("  ");
                            out.append(help.name.as_str());
                            let name_len = help.name.as_str().unicode_len();
                            let mut pad = if name_len < 12 {
                                name_len
                            } else {
                                12
                            };
                            while pad < 12
                                invariant
                                    pad <= 12,
                                decreases 12 - pad,
                            {
                                out.append(" ");
                                pad = pad + 1;
                            }
                            out.append(" - ");
                            if help.description.as_str().unicode_len() == 0 {
                                out.append("(no description)");
                            } else {
                                out.append(help.description.as_str());
                            }
                            out.append("\n");
                        },
                        None => {},
                    }
                    i = i + 1;
                }
                out.append("\nUse 'help <command>' for more information.\n");
                out
            },
        }
    }
}

impl Default for HelpSystem {
    fn default() -> (r: HelpSystem)
        ensures
            1 <= r.help_texts@.len() <= 2,
    {
        HelpSystem::new()
    }
}

impl CommandHelp {
    /// The name as a string slice.
    fn name_str(&self) -> (r: &str)
        ensures
            r@ == self.name@,
    {
        self.name.as_str()
    }
}

/// Sort names in byte order (insertion sort); ordering is presentational,
/// so only the count is promised.
#[verifier::loop_isolation(false)]
fn sort_names(v: &mut Vec<String>)
    ensures
        final(v)@.len() == old(v)@.len(),
{
    let mut i: usize = 1;
    while i < v.len()
        invariant
            v@.len() == old(v)@.len(),
            1 <= i <= v@.len() || v@.len() <= 1,
        decreases v@.len() - i,
    {
        let mut j: usize = i;
        while j > 0
            invariant
                0 <= j <= i < v@.len(),
                v@.len() == old(v)@.len(),
            decreases j,
        {
            if str_le(v[j - 1].as_str(), v[j].as_str()) {
                break ;
            }
            let a = clone_str(&v[j - 1]);
            let b = clone_str(&v[j]);
            v[j - 1] = b;
            v[j] = a;
            j = j - 1;
        }
        i = i + 1;
    }
}

/// Byte-order comparison of two strings.
#[verifier::loop_isolation(false)]
fn str_le(a: &str, b: &str) -> bool {
    let ab = a.as_bytes();
    let bb = b.as_bytes();
    let n = if ab.len() <= bb.len() {
        ab.len()
    } else {
        bb.len()
    };
    let mut i: usize = 0;
    while i < n
        invariant
            0 <= i <= n,
            n <= ab@.len(),
            n <= bb@.len(),
        decreases n - i,
    {
        if ab[i] < bb[i] {
            return true;
        }
        if ab[i] > bb[i] {
            return false;
        }
        i = i + 1;
    }
    ab.len() <= bb.len()
}

/// Extends a command registry with a help system.
pub trait CommandRegistryHelp {
    /// The help system.
    fn help_system(&self) -> &HelpSystem;

    /// The help system, mutably.
    fn help_system_mut(&mut self) -> &mut HelpSystem;

    /// Render help for one command or for all.
    fn show_help(&self, command: Option<&str>) -> String;
}

} // verus!
