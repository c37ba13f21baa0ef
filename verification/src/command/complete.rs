//! Completion of partially typed commands and arguments.

use vstd::prelude::*;

use crate::command::clone_str;
use vstd::string::StringSliceAdditionalSpecFns;

verus! {

/// One completion candidate with an optional description.
#[derive(Clone, Debug)]
pub struct CompletionItem {
    pub text: String,
    pub description: Option<String>,
}

impl CompletionItem {
    pub fn new(text: String) -> (r: CompletionItem)
        ensures
            r.text@ == text@,
            r.description is None,
    {
        CompletionItem { text, description: None }
    }

    /// This item with a description.
    pub fn with_description(self, desc: String) -> (r: CompletionItem)
        ensures
            r.text@ == self.text@,
            r.description matches Some(d) && d@ == desc@,
    {
        CompletionItem { description: Some(desc), ..self }
    }
}

/// Provides completions for a partially typed argument.
pub trait Completer {
    /// Candidates for `current`, given the arguments already typed.
    fn complete(&self, args: &Vec<String>, current: &str) -> Vec<CompletionItem>;
}

/// Whether `p` is a prefix of `s`, by bytes.
pub open spec fn is_prefix(p: Seq<u8>, s: Seq<u8>) -> bool {
    p.len() <= s.len() && s.take(p.len() as int) == p
}

/// Byte-level prefix test; matches `is_prefix` on the byte views.
#[verifier::loop_isolation(false)]
pub fn starts_with_bytes(s: &str, p: &str) -> (r: bool)
    ensures
        r == is_prefix(p.spec_bytes(), s.spec_bytes()),
{
    let sb = s.as_bytes();
    let pb = p.as_bytes();
    if pb.len() > sb.len() {
        proof {
            assert(!is_prefix(p.spec_bytes(), s.spec_bytes()));
        }
        return false;
    }
    let mut i: usize = 0;
    while i < pb.len()
        invariant
            0 <= i <= pb@.len() <= sb@.len(),
            forall|k: int| 0 <= k < i ==> sb@[k] == pb@[k],
        decreases pb@.len() - i,
    {
        if sb[i] != pb[i] {
            proof {
                assert(sb@.take(pb@.len() as int)[i as int] != pb@[i as int]);
            }
            return false;
        }
        i = i + 1;
    }
    proof {
        assert(sb@.take(pb@.len() as int) =~= pb@);
    }
    true
}

/// Completion from a fixed list: the items that start with the typed
/// prefix, in order.
pub struct ListCompleter {
    pub items: Vec<String>,
}

impl ListCompleter {
    pub fn new(items: Vec<String>) -> (r: ListCompleter)
        ensures
            r.items@ == items@,
    {
        ListCompleter { items }
    }
}

impl Completer for ListCompleter {
    #[verifier::loop_isolation(false)]
    fn complete(&self, args: &Vec<String>, current: &str) -> Vec<CompletionItem> {
        let mut out: Vec<CompletionItem> = Vec::new();
        let mut i: usize = 0;
        while i < self.items.len()
            invariant
                0 <= i <= self.items@.len(),
                forall|k: int|
                    0 <= k < out@.len() ==> exists|j: int|
                        0 <= j < i && (#[trigger] out@[k]).text@ == self.items@[j]@,
            decreases self.items@.len() - i,
        {
            if starts_with_bytes(self.items[i].as_str(), current) {
                out.push(CompletionItem::new(clone_str(&self.items[i])));
            }
            i = i + 1;
        }
        out
    }
}

} // verus!
