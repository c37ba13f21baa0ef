//! Undo and redo over a bounded history of reversible actions.

use vstd::prelude::*;

verus! {

/// A reversible action: commands implement this to join the undo history.
pub trait UndoableAction {
    /// The command name, for display.
    fn command_name(&self) -> &str;

    /// Reverse the action; reports success.
    fn undo(&mut self) -> bool;

    /// Reapply the action; reports success.
    fn redo(&mut self) -> bool;

    /// A type-erased copy of this action.
    fn clone_box(&self) -> ActionBox;
}

/// A boxed reversible action; opaque to verification, which breaks the
/// type cycle between the action trait and its box.
#[verifier::external_body]
pub struct ActionBox {
    inner: Box<dyn UndoableAction>,
}

/// Relies on `Box::new`: wraps an action for type-erased storage.
#[verifier::external_body]
pub fn action_box<A: UndoableAction + 'static>(action: A) -> ActionBox {
    ActionBox { inner: Box::new(action) }
}

/// Relies on the caller's own action implementation for the name.
#[verifier::external_body]
fn action_name(b: &ActionBox) -> &str {
    b.inner.command_name()
}

/// Relies on the caller's own action implementation to reverse itself.
#[verifier::external_body]
fn action_undo(b: &mut ActionBox) -> bool {
    b.inner.undo()
}

/// Relies on the caller's own action implementation to reapply itself.
#[verifier::external_body]
fn action_redo(b: &mut ActionBox) -> bool {
    b.inner.redo()
}

/// Relies on the caller's own action implementation to copy itself.
#[verifier::external_body]
fn action_clone(b: &ActionBox) -> ActionBox {
    b.inner.clone_box()
}

/// A type-erased reversible action.
pub struct UndoAction {
    pub action: ActionBox,
}

impl UndoAction {
    pub fn new<A: UndoableAction + 'static>(action: A) -> UndoAction {
        UndoAction { action: action_box(action) }
    }

    /// The wrapped action's command name.
    pub fn command_name(&self) -> &str {
        action_name(&self.action)
    }

    /// Reverse the wrapped action.
    pub fn undo(&mut self) -> bool {
        action_undo(&mut self.action)
    }

    /// Reapply the wrapped action.
    pub fn redo(&mut self) -> bool {
        action_redo(&mut self.action)
    }
}

impl Clone for UndoAction {
    fn clone(&self) -> UndoAction {
        UndoAction { action: action_clone(&self.action) }
    }
}

/// Relies on `Vec::push`: appends the element at the end.  The standard
/// push specification does not instantiate at an element type that holds a
/// trait object, so the length facts are restated here.
#[verifier::external_body]
fn push_action(v: &mut Vec<UndoAction>, a: UndoAction)
    ensures
        final(v)@.len() == old(v)@.len() + 1,
{
    v.push(a);
}

/// Relies on `Vec::pop`: removes and returns the last element.  The
/// standard pop specification does not instantiate at an element type that
/// holds a trait object, so the length facts are restated here.
#[verifier::external_body]
fn pop_action(v: &mut Vec<UndoAction>) -> (r: Option<UndoAction>)
    ensures
        old(v)@.len() == 0 ==> r is None && final(v)@.len() == 0,
        old(v)@.len() > 0 ==> r is Some && final(v)@.len() == old(v)@.len() - 1,
{
    v.pop()
}

/// The undo and redo histories, bounded by a maximum depth.
pub struct UndoStack {
    pub undo: Vec<UndoAction>,
    pub redo: Vec<UndoAction>,
    pub max_size: usize,
}

impl UndoStack {
    pub fn new(max_size: usize) -> (r: UndoStack)
        ensures
            r.undo_view().len() == 0,
            r.redo_view().len() == 0,
            r.max_size == max_size,
    {
        UndoStack { undo: Vec::new(), redo: Vec::new(), max_size }
    }

    /// The undo history, for specification.
    pub open spec fn undo_view(self) -> Seq<UndoAction> {
        self.undo@
    }

    /// The redo history, for specification.
    pub open spec fn redo_view(self) -> Seq<UndoAction> {
        self.redo@
    }

    /// Record an action: the redo history is discarded, the action joins
    /// the undo history, and the oldest entry falls out when the history
    /// is over its bound.
    pub fn push(&mut self, action: UndoAction)
        ensures
            final(self).redo_view().len() == 0,
            final(self).undo_view().len() as int == if old(self).undo_view().len() + 1
                <= old(self).max_size {
                old(self).undo_view().len() + 1int
            } else {
                old(self).undo_view().len() as int
            },
            final(self).max_size == old(self).max_size,
    {
        self.redo = Vec::new();
        push_action(&mut self.undo, action);
        if self.undo.len() > self.max_size {
            let dropped = self.undo.remove(0);
        }
    }

    /// Reverse the most recent action: on success it moves to the redo
    /// history and is returned; on failure it stays put.
    pub fn undo(&mut self) -> (r: Option<UndoAction>)
        ensures
            r is Some ==> final(self).undo_view().len() == old(self).undo_view().len() - 1
                && final(self).redo_view().len() == old(self).redo_view().len() + 1,
            r is None ==> final(self).undo_view().len() == old(self).undo_view().len()
                && final(self).redo_view() == old(self).redo_view(),
            final(self).max_size == old(self).max_size,
    {
        match pop_action(&mut self.undo) {
            Some(mut action) => {
                if action.undo() {
                    push_action(&mut self.redo, action.clone());
                    Some(action)
                } else {
                    push_action(&mut self.undo, action);
                    None
                }
            },
            None => None,
        }
    }

    /// Reapply the most recently undone action: on success it moves back
    /// to the undo history and is returned; on failure it stays put.
    pub fn redo(&mut self) -> (r: Option<UndoAction>)
        ensures
            r is Some ==> final(self).redo_view().len() == old(self).redo_view().len() - 1
                && final(self).undo_view().len() == old(self).undo_view().len() + 1,
            r is None ==> final(self).redo_view().len() == old(self).redo_view().len()
                && final(self).undo_view() == old(self).undo_view(),
            final(self).max_size == old(self).max_size,
    {
        match pop_action(&mut self.redo) {
            Some(mut action) => {
                if action.redo() {
                    push_action(&mut self.undo, action.clone());
                    Some(action)
                } else {
                    push_action(&mut self.redo, action);
                    None
                }
            },
            None => None,
        }
    }

    /// Whether an undo is available.
    pub fn can_undo(&self) -> (r: bool)
        ensures
            r == (self.undo_view().len() > 0),
    {
        self.undo.len() > 0
    }

    /// Whether a redo is available.
    pub fn can_redo(&self) -> (r: bool)
        ensures
            r == (self.redo_view().len() > 0),
    {
        self.redo.len() > 0
    }

    /// Forget both histories.
    pub fn clear(&mut self)
        ensures
            final(self).undo_view().len() == 0,
            final(self).redo_view().len() == 0,
            final(self).max_size == old(self).max_size,
    {
        self.undo = Vec::new();
        self.redo = Vec::new();
    }

    /// The depth of the undo history.
    pub fn undo_len(&self) -> (r: usize)
        ensures
            r == self.undo_view().len(),
    {
        self.undo.len()
    }

    /// The depth of the redo history.
    pub fn redo_len(&self) -> (r: usize)
        ensures
            r == self.redo_view().len(),
    {
        self.redo.len()
    }
}

impl Default for UndoStack {
    fn default() -> (r: UndoStack)
        ensures
            r.undo_view().len() == 0,
            r.redo_view().len() == 0,
            r.max_size == 100,
    {
        UndoStack::new(100)
    }
}

/// Relies on `Box::new`: wraps a value-change action for type-erased
/// storage.
#[verifier::external_body]
fn value_change_box<T: Clone + Send + Sync + 'static>(action: ValueChangeAction<T>) -> ActionBox {
    ActionBox { inner: Box::new(action) }
}

/// A reversible replacement of one value: remembers the old and the new
/// value and tracks which one is current.
#[derive(Clone)]
pub struct ValueChangeAction<T: Clone + Send + Sync> {
    pub name: String,
    pub old_value: T,
    pub new_value: T,
    pub current_value: T,
}

impl<T: Clone + Send + Sync + 'static> ValueChangeAction<T> {
    pub fn new(name: String, old: T, new: T) -> ValueChangeAction<T> {
        ValueChangeAction { name, old_value: old, new_value: new.clone(), current_value: new }
    }

    /// The value as of the latest undo or redo.
    pub fn current(&self) -> &T {
        &self.current_value
    }
}

impl<T: Clone + Send + Sync + 'static> UndoableAction for ValueChangeAction<T> {
    fn command_name(&self) -> &str {
        self.name.as_str()
    }

    fn undo(&mut self) -> bool {
        self.current_value = self.old_value.clone();
        true
    }

    fn redo(&mut self) -> bool {
        self.current_value = self.new_value.clone();
        true
    }

    fn clone_box(&self) -> ActionBox {
        value_change_box(self.clone())
    }
}

} // verus!
