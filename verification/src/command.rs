//! The command engine: shell-like parsing, a handler registry, completion,
//! help and undo.

use vstd::prelude::*;

use crate::error::CommandError;
use crate::error::Error;
use crate::render::buffer::str_chars;

pub mod complete;
pub mod handler;
pub mod help;
pub mod undo;

pub use complete::Completer;
pub use complete::CompletionItem;
pub use handler::CommandContext;
pub use handler::CommandHandler;
pub use handler::CommandResult;
pub use undo::UndoAction;
pub use undo::UndoStack;

verus! {

/// A parsed command: a name and its arguments.
#[derive(Clone, Debug)]
pub struct Command {
    pub name: String,
    pub args: Vec<String>,
}

impl Command {
    pub fn new(name: String) -> (r: Command)
        ensures
            r.name@ == name@,
            r.args@.len() == 0,
    {
        Command { name, args: Vec::new() }
    }

    /// This command with one more argument.
    pub fn arg(self, arg: String) -> (r: Command)
        ensures
            r.name@ == self.name@,
            r.args@ == self.args@.push(arg),
    {
        let mut c = self;
        c.args.push(arg);
        c
    }

    /// This command with its arguments replaced.
    pub fn args(self, args: Vec<String>) -> (r: Command)
        ensures
            r.name@ == self.name@,
            r.args@ == args@,
    {
        Command { args, ..self }
    }
}

/// The tokenizer's state: finished tokens, the token being built, the open
/// quote if any, and whether the next character is escaped.
#[verifier::ext_equal]
pub ghost struct ParseState {
    pub tokens: Seq<Seq<char>>,
    pub current: Seq<char>,
    pub quote: Option<char>,
    pub escape: bool,
}

/// The tokenizer's starting state.
pub open spec fn parse_init() -> ParseState {
    ParseState { tokens: Seq::empty(), current: Seq::empty(), quote: None, escape: false }
}

/// One character of shell-like tokenization: backslash escapes the next
/// character, single and double quotes delimit one token, unquoted blanks
/// end the token being built.
pub open spec fn parse_step(st: ParseState, c: char) -> ParseState {
    if st.escape {
        ParseState { current: st.current.push(c), escape: false, ..st }
    } else if c == '\\' {
        ParseState { escape: true, ..st }
    } else if c == '"' || c == '\'' {
        match st.quote {
            Some(q) => if q == c {
                ParseState { quote: None, ..st }
            } else {
                ParseState { current: st.current.push(c), ..st }
            },
            None => ParseState { quote: Some(c), ..st },
        }
    } else if c == ' ' || c == '\t' {
        if st.quote is Some {
            ParseState { current: st.current.push(c), ..st }
        } else if st.current.len() > 0 {
            ParseState { tokens: st.tokens.push(st.current), current: Seq::empty(), ..st }
        } else {
            st
        }
    } else {
        ParseState { current: st.current.push(c), ..st }
    }
}

/// Tokenize a whole character sequence.
pub open spec fn parse_fold(s: Seq<char>, st: ParseState) -> ParseState
    decreases s.len(),
{
    if s.len() == 0 {
        st
    } else {
        parse_fold(s.drop_first(), parse_step(st, s[0]))
    }
}

/// The tokenizer's final state on an input line.
pub open spec fn parse_end(s: Seq<char>) -> ParseState {
    parse_fold(s, parse_init())
}

/// Whether the line ends inside a quoted argument.
pub open spec fn parse_unclosed(s: Seq<char>) -> bool {
    parse_end(s).quote is Some
}

/// The tokens of the line: the finished ones plus the trailing token, when
/// one was still being built.
pub open spec fn parse_tokens(s: Seq<char>) -> Seq<Seq<char>> {
    let st = parse_end(s);
    if st.current.len() > 0 {
        st.tokens.push(st.current)
    } else {
        st.tokens
    }
}

/// Parse a command line.
///
/// Splits on unquoted blanks; double and single quotes group one argument;
/// a backslash escapes the next character.  A line that ends inside quotes
/// is rejected as unclosed, and a line without any token as empty;
/// otherwise the first token is the command name and the rest are its
/// arguments.
#[verifier::loop_isolation(false)]
pub fn parse(input: &str) -> (r: Result<Command, Error>)
    ensures
        parse_unclosed(input@) ==> (r matches Err(e)
            && e matches Error::Command(CommandError::UnclosedQuote)),
        !parse_unclosed(input@) && parse_tokens(input@).len() == 0 ==> (r matches Err(e)
            && e matches Error::Command(CommandError::Empty)),
        !parse_unclosed(input@) && parse_tokens(input@).len() > 0 ==> (r matches Ok(cmd)
            && cmd.name@ == parse_tokens(input@)[0] && cmd.args@.len() == parse_tokens(
            input@,
        ).len() - 1 && (forall|k: int|
            0 <= k < cmd.args@.len() ==> cmd.args@[k]@ == parse_tokens(input@)[k + 1])),
{
    let chars = str_chars(input);
    let ghost s = input@;
    let mut tokens: Vec<String> = Vec::new();
    let mut current: Vec<char> = Vec::new();
    let mut quote: Option<char> = None;
    let mut escape = false;
    let mut i: usize = 0;
    proof {
        assert(s.skip(0) =~= s);
        assert(abstract_state(tokens@, current@, quote, escape) =~~= parse_init());
    }
    while i < chars.len()
        invariant
            0 <= i <= s.len(),
            chars@ == s,
            parse_fold(s.skip(i as int), abstract_state(tokens@, current@, quote, escape))
                == parse_end(s),
        decreases s.len() - i,
    {
        let ghost pre = s.skip(i as int);
        let ghost st0 = abstract_state(tokens@, current@, quote, escape);
        let c = chars[i];
        proof {
            assert(pre[0] == s[i as int]);
            assert(pre.drop_first() =~= s.skip(i as int + 1));
        }
        if escape {
            current.push(c);
            escape = false;
        } else if c == '\\' {
            escape = true;
        } else if c == '"' || c == '\'' {
            match quote {
                Some(q) => {
                    if q == c {
                        quote = None;
                    } else {
                        current.push(c);
                    }
                },
                None => {
                    quote = Some(c);
                },
            }
        } else if c == ' ' || c == '\t' {
            if quote.is_some() {
                current.push(c);
            } else if current.len() > 0 {
                tokens.push(chars_to_string(&current));
                current = Vec::new();
            }
        } else {
            current.push(c);
        }
        proof {
            let stn = abstract_state(tokens@, current@, quote, escape);
            let stp = parse_step(st0, c);
            assert(stn.tokens =~~= stp.tokens);
            assert(stn.current =~= stp.current);
            assert(stn =~~= stp);
        }
        i = i + 1;
    }
    proof {
        assert(s.skip(s.len() as int) =~= Seq::<char>::empty());
    }
    if quote.is_some() {
        return Err(Error::Command(CommandError::UnclosedQuote));
    }
    if current.len() > 0 {
        tokens.push(chars_to_string(&current));
    }
    if tokens.len() == 0 {
        return Err(Error::Command(CommandError::Empty));
    }
    let ghost toks = parse_tokens(s);
    let name = clone_str(&tokens[0]);
    let mut args: Vec<String> = Vec::new();
    let mut k: usize = 1;
    while k < tokens.len()
        invariant
            1 <= k <= tokens@.len(),
            args@.len() == k - 1,
            forall|j: int| 0 <= j < tokens@.len() ==> tokens@[j]@ == toks[j],
            forall|j: int| 0 <= j < args@.len() ==> args@[j]@ == toks[j + 1],
        decreases tokens@.len() - k,
    {
        args.push(clone_str(&tokens[k]));
        k = k + 1;
    }
    Ok(Command { name, args })
}

/// The tokenizer state the executable variables stand for.
pub open spec fn abstract_state(
    tokens: Seq<String>,
    current: Seq<char>,
    quote: Option<char>,
    escape: bool,
) -> ParseState {
    ParseState {
        tokens: Seq::new(tokens.len(), |i: int| tokens[i]@),
        current,
        quote,
        escape,
    }
}

/// Relies on `Iterator::collect`: builds the string holding exactly these
/// characters.
#[verifier::external_body]
pub fn chars_to_string(v: &Vec<char>) -> (r: String)
    ensures
        r@ == v@,
{
    v.iter().collect()
}

/// A copy of a string with the same characters.
pub fn clone_str(s: &String) -> (r: String)
    ensures
        r@ == s@,
{
    s.clone()
}

/// No command name appears twice in the registry.
pub open spec fn unique_names(s: Seq<(String, Box<dyn CommandHandler>)>) -> bool {
    forall|i: int, j: int| 0 <= i < j < s.len() ==> s[i].0@ != s[j].0@
}

/// Maps command names to their handlers; each name is bound at most once.
pub struct CommandRegistry {
    pub handlers: Vec<(String, Box<dyn CommandHandler>)>,
}

impl CommandRegistry {
    pub fn new() -> (r: CommandRegistry)
        ensures
            r.handlers@.len() == 0,
    {
        CommandRegistry { handlers: Vec::new() }
    }

    /// Register a handler under a name; a second registration under the
    /// same name replaces the first.
    #[verifier::loop_isolation(false)]
    pub fn register<H: CommandHandler + 'static>(&mut self, name: &str, handler: H)
        requires
            unique_names(old(self).handlers@),
        ensures
            unique_names(final(self).handlers@),
            final(self).handlers@.len() <= old(self).handlers@.len() + 1,
            final(self).handlers@.len() >= 1,
            final(self).handlers@[final(self).handlers@.len() - 1].0@ == name@,
    {
        let mut i: usize = 0;
        while i < self.handlers.len()
            invariant
                0 <= i <= self.handlers@.len(),
                self.handlers@ == old(self).handlers@,
                forall|k: int| 0 <= k < i ==> self.handlers@[k].0@ != name@,
            decreases self.handlers@.len() - i,
        {
            if crate::state::store::str_equal(self.handlers[i].0.as_str(), name) {
                let dropped = self.handlers.remove(i);
                break ;
            }
            i = i + 1;
        }
        let b: Box<dyn CommandHandler> = Box::new(handler);
        let ghost pre = self.handlers@;
        push_named_handler(&mut self.handlers, (name.to_owned(), b));
        proof {
            assert forall|a: int, c: int|
                0 <= a < c < self.handlers@.len() implies self.handlers@[a].0@
                != self.handlers@[c].0@ by {
                if c == self.handlers@.len() - 1 {
                    assert(self.handlers@[a].0@ == pre[a].0@);
                }
            }
        }
    }

    /// Execute a command: the handler registered under its name runs, or
    /// the command is reported as not found.  The registry keeps its
    /// entries, names and order.
    #[verifier::loop_isolation(false)]
    pub fn execute(&mut self, cmd: Command, ctx: &mut CommandContext) -> (r: Result<
        CommandResult,
        Error,
    >)
        ensures
            final(self).handlers@.len() == old(self).handlers@.len(),
            forall|k: int|
                0 <= k < final(self).handlers@.len() ==> final(self).handlers@[k].0@ == old(
                    self,
                ).handlers@[k].0@,
    {
        let ghost n = self.handlers@.len();
        let mut i: usize = 0;
        let mut found: Option<usize> = None;
        while i < self.handlers.len()
            invariant
                0 <= i <= self.handlers@.len(),
                self.handlers@ == old(self).handlers@,
                found is None,
            decreases self.handlers@.len() - i,
        {
            if crate::state::store::str_equal(self.handlers[i].0.as_str(), cmd.name.as_str()) {
                found = Some(i);
                break ;
            }
            i = i + 1;
        }
        match found {
            Some(idx) => {
                // take the entry out, run it, put it back where it was
                let mut entry = self.handlers.remove(idx);
                let result = entry.1.execute(cmd, ctx);
                insert_named_handler(&mut self.handlers, idx, entry);
                proof {
                    assert forall|k: int|
                        0 <= k < self.handlers@.len() implies self.handlers@[k].0@ == old(
                        self,
                    ).handlers@[k].0@ by {
                        if k > idx {
                            assert(old(self).handlers@.remove(idx as int)[k - 1].0 == old(
                                self,
                            ).handlers@[k].0);
                        }
                    }
                }
                result
            },
            None => Err(
                Error::Command(CommandError::NotFound(clone_str(&cmd.name))),
            ),
        }
    }

    /// Parse a line and execute it.
    pub fn execute_line(&mut self, line: &str, ctx: &mut CommandContext) -> (r: Result<
        CommandResult,
        Error,
    >)
        ensures
            final(self).handlers@.len() == old(self).handlers@.len(),
    {
        match parse(line) {
            Ok(cmd) => self.execute(cmd, ctx),
            Err(e) => Err(e),
        }
    }

    /// The registered command names.
    #[verifier::loop_isolation(false)]
    pub fn command_names(&self) -> (r: Vec<String>)
        ensures
            r@.len() == self.handlers@.len(),
            forall|i: int| 0 <= i < r@.len() ==> r@[i]@ == self.handlers@[i].0@,
    {
        let mut names: Vec<String> = Vec::new();
        let mut i: usize = 0;
        while i < self.handlers.len()
            invariant
                0 <= i <= self.handlers@.len(),
                names@.len() == i,
                forall|k: int| 0 <= k < i ==> names@[k]@ == self.handlers@[k].0@,
            decreases self.handlers@.len() - i,
        {
            names.push(clone_str(&self.handlers[i].0));
            i = i + 1;
        }
        names
    }

    /// Whether a handler is registered under this name.
    #[verifier::loop_isolation(false)]
    pub fn has_command(&self, name: &str) -> (r: bool)
        ensures
            r == exists|i: int|
                0 <= i < self.handlers@.len() && self.handlers@[i].0@ == name@,
    {
        let mut i: usize = 0;
        while i < self.handlers.len()
            invariant
                0 <= i <= self.handlers@.len(),
                forall|k: int| 0 <= k < i ==> self.handlers@[k].0@ != name@,
            decreases self.handlers@.len() - i,
        {
            if crate::state::store::str_equal(self.handlers[i].0.as_str(), name) {
                return true;
            }
            i = i + 1;
        }
        false
    }
}

impl Default for CommandRegistry {
    fn default() -> (r: CommandRegistry)
        ensures
            r.handlers@.len() == 0,
    {
        CommandRegistry::new()
    }
}

/// Relies on `Vec::push`: appends the entry at the end.  The standard
/// push specification does not instantiate at an element type that holds a
/// trait object, so the length and name facts are restated here.
#[verifier::external_body]
fn push_named_handler(
    v: &mut Vec<(String, Box<dyn CommandHandler>)>,
    e: (String, Box<dyn CommandHandler>),
)
    ensures
        final(v)@.len() == old(v)@.len() + 1,
        forall|k: int| 0 <= k < old(v)@.len() ==> final(v)@[k].0@ == old(v)@[k].0@,
        final(v)@[old(v)@.len() as int].0@ == e.0@,
{
    v.push(e);
}

/// Relies on `Vec::insert`: puts the entry at the index, shifting the rest
/// right.  The standard insert specification does not instantiate at an
/// element type that holds a trait object, so the length and name facts
/// are restated here.
#[verifier::external_body]
fn insert_named_handler(
    v: &mut Vec<(String, Box<dyn CommandHandler>)>,
    idx: usize,
    e: (String, Box<dyn CommandHandler>),
)
    requires
        idx <= old(v)@.len(),
    ensures
        final(v)@.len() == old(v)@.len() + 1,
        forall|k: int| 0 <= k < idx ==> final(v)@[k].0@ == old(v)@[k].0@,
        final(v)@[idx as int].0@ == e.0@,
        forall|k: int|
            idx <= k < old(v)@.len() ==> final(v)@[k + 1].0@ == old(v)@[k].0@,
{
    v.insert(idx, e);
}

} // verus!
