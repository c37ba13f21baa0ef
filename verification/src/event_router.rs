//! Event routing with capture, target and bubble phases.
//!
//! Components form a forest; routing an event to a target walks the path
//! from the root down to the target (capture), the target itself (target),
//! and back up (bubble).  A handler stops the walk by consuming the event;
//! one that reports the event handled marks the default action prevented.

use vstd::prelude::*;

use crate::event::Event;
use crate::event::EventResult;

verus! {

broadcast use vstd::seq_lib::group_seq_properties;

/// Where in the walk a handler runs.
#[derive(Debug, Clone, Copy, PartialEq, Eq, Structural)]
pub enum EventPhase {
    /// From the root down to (excluding) the target.
    Capture,
    /// At the target itself.
    Target,
    /// From (excluding) the target back up to the root.
    Bubble,
}

/// The walk's state: the current phase and the two propagation flags.
#[derive(Debug, Clone, Copy, PartialEq, Eq, Structural)]
pub struct EventRoutingContext {
    pub phase: EventPhase,
    pub stopped: bool,
    pub prevented: bool,
}

impl EventRoutingContext {
    pub fn new() -> (r: EventRoutingContext)
        ensures
            r.phase == EventPhase::Capture,
            !r.stopped,
            !r.prevented,
    {
        EventRoutingContext { phase: EventPhase::Capture, stopped: false, prevented: false }
    }

    /// No further handler anywhere will run.
    pub fn stop_propagation(&mut self)
        ensures
            final(self).stopped,
            final(self).prevented == old(self).prevented,
            final(self).phase == old(self).phase,
    {
        self.stopped = true;
    }

    /// The caller should suppress the default action.
    pub fn prevent_default(&mut self)
        ensures
            final(self).prevented,
            final(self).stopped == old(self).stopped,
            final(self).phase == old(self).phase,
    {
        self.prevented = true;
    }

    /// Whether the walk goes on.
    pub fn should_continue(&self) -> (r: bool)
        ensures
            r == !self.stopped,
    {
        !self.stopped
    }
}

impl Default for EventRoutingContext {
    fn default() -> (r: EventRoutingContext)
        ensures
            r.phase == EventPhase::Capture,
            !r.stopped,
            !r.prevented,
    {
        EventRoutingContext::new()
    }
}

/// What one handler invocation tells the router.
pub trait Handler {
    /// React to an event during the walk.  Returning `Consumed` stops the
    /// walk; returning `Handled` marks the default action prevented.
    fn on_event(&self, event: &Event, ctx: &EventRoutingContext) -> EventResult;
}

/// Relies on the caller's own callback: the router treats its result as an
/// arbitrary value of the result type.
#[verifier::external_body]
fn call_handler_fn<F: Fn(&Event, &EventRoutingContext) -> EventResult>(
    f: &F,
    event: &Event,
    ctx: &EventRoutingContext,
) -> EventResult {
    f(event, ctx)
}

impl<F: Fn(&Event, &EventRoutingContext) -> EventResult> Handler for F {
    fn on_event(&self, event: &Event, ctx: &EventRoutingContext) -> EventResult {
        call_handler_fn(self, event, ctx)
    }
}

/// A handler bound to the phase it runs in.
pub struct EventHandler {
    pub handler: Box<dyn Handler>,
    pub phase: EventPhase,
}

impl EventHandler {
    /// A handler for one phase.
    pub fn new<H: Handler + 'static>(phase: EventPhase, handler: H) -> EventHandler {
        let h: Box<dyn Handler> = Box::new(handler);
        EventHandler { handler: h, phase }
    }

    /// Run the handler when the walk is in its phase; otherwise the event
    /// is ignored.
    pub fn handle(&self, event: &Event, ctx: &mut EventRoutingContext) -> (r: EventResult)
        ensures
            final(ctx).phase == old(ctx).phase,
            old(ctx).stopped ==> final(ctx).stopped,
            old(ctx).prevented ==> final(ctx).prevented,
            r == EventResult::Consumed ==> final(ctx).stopped,
            r == EventResult::Handled ==> final(ctx).prevented,
    {
        if self.phase == ctx.phase {
            let r = self.handler.on_event(event, ctx);
            match r {
                EventResult::Consumed => ctx.stop_propagation(),
                EventResult::Handled => ctx.prevent_default(),
                EventResult::Ignored => {},
            }
            r
        } else {
            EventResult::Ignored
        }
    }
}

/// A component id in the routing forest.
pub type RouterComponentId = usize;

/// Whether `p` is recorded as somebody's parent in the link table.
pub open spec fn is_registered_parent(
    links: Seq<(RouterComponentId, RouterComponentId)>,
    p: RouterComponentId,
) -> bool {
    exists|j: int| 0 <= j < links.len() && links[j].1 == p
}

/// Whether a handler table holds no handler for the target nor for any
/// registered parent: routing to such a target cannot run any handler.
pub open spec fn no_handler_on_ancestry(
    handlers: Seq<(RouterComponentId, EventHandler)>,
    links: Seq<(RouterComponentId, RouterComponentId)>,
    target: RouterComponentId,
) -> bool {
    forall|k: int|
        0 <= k < handlers.len() ==> (#[trigger] handlers[k]).0 != target
            && !is_registered_parent(links, handlers[k].0)
}

/// Relies on `Vec::push`: appends the element at the end.  The standard
/// push specification does not instantiate at an element type that holds a
/// trait object, so the length and component-id facts are restated here.
#[verifier::external_body]
fn push_handler_entry(
    v: &mut Vec<(RouterComponentId, EventHandler)>,
    e: (RouterComponentId, EventHandler),
)
    ensures
        final(v)@.len() == old(v)@.len() + 1,
        forall|k: int| 0 <= k < old(v)@.len() ==> final(v)@[k].0 == old(v)@[k].0,
        final(v)@[old(v)@.len() as int].0 == e.0,
{
    v.push(e);
}

/// Routes events through the component forest.
pub struct EventRouter {
    /// Child-to-parent links.
    pub hierarchy: Vec<(RouterComponentId, RouterComponentId)>,
    /// Handlers, each bound to a component.
    pub handlers: Vec<(RouterComponentId, EventHandler)>,
    /// The next id handed out.
    pub next_id: RouterComponentId,
}

impl EventRouter {
    pub fn new() -> (r: EventRouter)
        ensures
            r.hierarchy@.len() == 0,
            r.next_id == 1,
    {
        EventRouter { hierarchy: Vec::new(), handlers: Vec::new(), next_id: 1 }
    }

    /// Register a component, optionally under a parent; returns its fresh
    /// id.
    pub fn register(&mut self, parent: Option<RouterComponentId>) -> (r: RouterComponentId)
        ensures
            r == old(self).next_id,
            final(self).next_id == if old(self).next_id < usize::MAX {
                old(self).next_id + 1
            } else {
                old(self).next_id as int
            },
            parent is Some ==> final(self).hierarchy@ == old(self).hierarchy@.push(
                (old(self).next_id, parent->0),
            ),
            parent is None ==> final(self).hierarchy@ == old(self).hierarchy@,
    {
        let id = self.next_id;
        if self.next_id < usize::MAX {
            self.next_id = self.next_id + 1;
        }
        match parent {
            Some(p) => {
                self.hierarchy.push((id, p));
            },
            None => {},
        }
        id
    }

    /// Attach a handler to a component at the end of the dispatch order.
    pub fn add_handler(&mut self, component: RouterComponentId, handler: EventHandler)
        ensures
            final(self).handlers@.len() == old(self).handlers@.len() + 1,
            forall|k: int|
                0 <= k < old(self).handlers@.len() ==> final(self).handlers@[k].0 == old(
                    self,
                ).handlers@[k].0,
            final(self).handlers@[old(self).handlers@.len() as int].0 == component,
            final(self).hierarchy@ == old(self).hierarchy@,
            final(self).next_id == old(self).next_id,
    {
        push_handler_entry(&mut self.handlers, (component, handler));
    }

    /// The parent of a component, if registered.
    #[verifier::loop_isolation(false)]
    fn parent_of(&self, id: RouterComponentId) -> (r: Option<RouterComponentId>)
        ensures
            r matches Some(p) ==> is_registered_parent(self.hierarchy@, p),
    {
        let mut i: usize = 0;
        while i < self.hierarchy.len()
            invariant
                0 <= i <= self.hierarchy@.len(),
            decreases self.hierarchy@.len() - i,
        {
            if self.hierarchy[i].0 == id {
                proof {
                    assert(self.hierarchy@[i as int].1 == self.hierarchy@[i as int].1);
                }
                return Some(self.hierarchy[i].1);
            }
            i = i + 1;
        }
        None
    }

    /// The path from the root of the target's tree down to the target.
    /// The walk is cut off after one step per registered link, so a cyclic
    /// link table cannot hang it.
    #[verifier::loop_isolation(false)]
    fn path_to(&self, target: RouterComponentId) -> (r: Vec<RouterComponentId>)
        ensures
            r@.len() >= 1,
            r@[r@.len() - 1] == target,
            forall|k: int|
                0 <= k < r@.len() ==> #[trigger] r@[k] == target || is_registered_parent(
                    self.hierarchy@,
                    r@[k],
                ),
    {
        let mut up: Vec<RouterComponentId> = Vec::new();
        up.push(target);
        let mut current = target;
        let mut steps: usize = 0;
        let bound = self.hierarchy.len();
        while steps < bound
            invariant
                up@.len() >= 1,
                up@[0] == target,
                forall|k: int|
                    0 <= k < up@.len() ==> #[trigger] up@[k] == target
                        || is_registered_parent(self.hierarchy@, up@[k]),
            decreases bound - steps,
        {
            match self.parent_of(current) {
                Some(p) => {
                    up.push(p);
                    current = p;
                },
                None => {
                    break ;
                },
            }
            steps = steps + 1;
        }
        // reverse: root first, target last
        let mut path: Vec<RouterComponentId> = Vec::new();
        let mut i: usize = up.len();
        while i > 0
            invariant
                0 <= i <= up@.len(),
                path@.len() == up@.len() - i,
                forall|k: int|
                    0 <= k < path@.len() ==> path@[k] == up@[up@.len() - 1 - k],
                forall|k: int|
                    0 <= k < up@.len() ==> #[trigger] up@[k] == target
                        || is_registered_parent(self.hierarchy@, up@[k]),
            decreases i,
        {
            i = i - 1;
            path.push(up[i]);
        }
        proof {
            assert(path@[path@.len() - 1] == up@[0]);
        }
        path
    }

    /// Run every handler of one component that listens to the current
    /// phase, stopping when one consumes the event.  A component without
    /// any handler leaves the walk's state untouched.
    #[verifier::loop_isolation(false)]
    fn dispatch_to(&self, component: RouterComponentId, event: &Event, ctx: &mut EventRoutingContext)
        ensures
            final(ctx).phase == old(ctx).phase,
            old(ctx).stopped ==> final(ctx).stopped,
            old(ctx).prevented ==> final(ctx).prevented,
            (forall|k: int|
                0 <= k < self.handlers@.len() ==> self.handlers@[k].0 != component)
                ==> *final(ctx) == *old(ctx),
    {
        let mut i: usize = 0;
        while i < self.handlers.len()
            invariant
                0 <= i <= self.handlers@.len(),
                ctx.phase == old(ctx).phase,
                old(ctx).stopped ==> ctx.stopped,
                old(ctx).prevented ==> ctx.prevented,
                (forall|k: int|
                    0 <= k < self.handlers@.len() ==> self.handlers@[k].0 != component)
                    ==> *ctx == *old(ctx),
            decreases self.handlers@.len() - i,
        {
            if !ctx.should_continue() {
                return ;
            }
            if self.handlers[i].0 == component {
                let result = self.handlers[i].1.handle(event, ctx);
                match result {
                    EventResult::Consumed => {
                        ctx.stop_propagation();
                        return ;
                    },
                    _ => {},
                }
            }
            i = i + 1;
        }
    }

    /// Route an event to a target: capture from the root down, then the
    /// target, then bubble back up.  The result is `Consumed` when a
    /// handler stopped the walk, `Handled` when one prevented the default
    /// action, and `Ignored` otherwise — in particular, a router without
    /// any handler always reports the event ignored.
    #[verifier::loop_isolation(false)]
    pub fn route(&self, event: &Event, target: RouterComponentId) -> (r: EventResult)
        ensures
            self.handlers@.len() == 0 ==> r == EventResult::Ignored,
            no_handler_on_ancestry(self.handlers@, self.hierarchy@, target) ==> r
                == EventResult::Ignored,
    {
        let mut ctx = EventRoutingContext::new();
        let path = self.path_to(target);
        let n = path.len();
        // capture: root toward target, excluding the target
        ctx.phase = EventPhase::Capture;
        let mut i: usize = 0;
        while i + 1 < n
            invariant
                0 <= i < n,
                n == path@.len(),
                ctx.phase == EventPhase::Capture,
                self.handlers@.len() == 0 ==> !ctx.stopped && !ctx.prevented,
                no_handler_on_ancestry(self.handlers@, self.hierarchy@, target)
                    ==> !ctx.stopped && !ctx.prevented,
                forall|k: int|
                    0 <= k < path@.len() ==> #[trigger] path@[k] == target
                        || is_registered_parent(self.hierarchy@, path@[k]),
            decreases n - i,
        {
            if !ctx.should_continue() {
                break ;
            }
            self.dispatch_to(path[i], event, &mut ctx);
            proof {
                assert(ctx.phase == EventPhase::Capture);
            }
            i = i + 1;
        }
        // target phase
        if ctx.should_continue() {
            ctx.phase = EventPhase::Target;
            self.dispatch_to(target, event, &mut ctx);
        }
        // bubble: from just above the target back to the root
        if ctx.should_continue() {
            ctx.phase = EventPhase::Bubble;
            let mut j: usize = n - 1;
            while j > 0
                invariant
                    0 <= j <= n - 1,
                    n == path@.len(),
                    self.handlers@.len() == 0 ==> !ctx.stopped && !ctx.prevented,
                    no_handler_on_ancestry(self.handlers@, self.hierarchy@, target)
                        ==> !ctx.stopped && !ctx.prevented,
                    forall|k: int|
                        0 <= k < path@.len() ==> #[trigger] path@[k] == target
                            || is_registered_parent(self.hierarchy@, path@[k]),
                decreases j,
            {
                if !ctx.should_continue() {
                    break ;
                }
                j = j - 1;
                self.dispatch_to(path[j], event, &mut ctx);
            }
        }
        if ctx.stopped {
            EventResult::Consumed
        } else if ctx.prevented {
            EventResult::Handled
        } else {
            EventResult::Ignored
        }
    }

    /// Remove a component's parent link and all of its handlers; every
    /// other link and handler stays.
    #[verifier::loop_isolation(false)]
    pub fn unregister(&mut self, component: RouterComponentId)
        ensures
            forall|k: int|
                0 <= k < final(self).hierarchy@.len() ==> final(self).hierarchy@[k].0
                    != component && old(self).hierarchy@.contains(
                    final(self).hierarchy@[k],
                ),
            forall|k: int|
                0 <= k < old(self).hierarchy@.len() && old(self).hierarchy@[k].0 != component
                    ==> final(self).hierarchy@.contains(old(self).hierarchy@[k]),
            forall|k: int|
                0 <= k < final(self).handlers@.len() ==> final(self).handlers@[k].0
                    != component,
            final(self).handlers@.len() <= old(self).handlers@.len(),
            final(self).next_id == old(self).next_id,
    {
        let mut kept_links: Vec<(RouterComponentId, RouterComponentId)> = Vec::new();
        let mut i: usize = 0;
        while i < self.hierarchy.len()
            invariant
                0 <= i <= self.hierarchy@.len(),
                self.hierarchy@ == old(self).hierarchy@,
                forall|k: int|
                    0 <= k < kept_links@.len() ==> kept_links@[k].0 != component
                        && old(self).hierarchy@.contains(kept_links@[k]),
                forall|k: int|
                    0 <= k < i && old(self).hierarchy@[k].0 != component
                        ==> kept_links@.contains(old(self).hierarchy@[k]),
            decreases self.hierarchy@.len() - i,
        {
            let link = self.hierarchy[i];
            if link.0 != component {
                proof {
                    assert(old(self).hierarchy@.contains(old(self).hierarchy@[i as int]));
                }
                kept_links.push(link);
            }
            i = i + 1;
        }
        self.hierarchy = kept_links;
        let ghost links = self.hierarchy@;
        let ghost total = self.handlers@.len();
        let mut kept: Vec<(RouterComponentId, EventHandler)> = Vec::new();
        while self.handlers.len() > 0
            invariant
                self.hierarchy@ == links,
                self.next_id == old(self).next_id,
                kept@.len() + self.handlers@.len() <= total,
                forall|k: int| 0 <= k < kept@.len() ==> kept@[k].0 != component,
            decreases self.handlers@.len(),
        {
            let entry = self.handlers.remove(0);
            if entry.0 != component {
                push_handler_entry(&mut kept, entry);
            }
        }
        self.handlers = kept;
    }
}

impl Default for EventRouter {
    fn default() -> (r: EventRouter)
        ensures
            r.hierarchy@.len() == 0,
            r.next_id == 1,
    {
        EventRouter::new()
    }
}

} // verus!
