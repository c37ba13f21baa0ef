//! The component protocol and the per-frame view tree.
//!
//! A component renders into a short-lived tree of view nodes; the tree is
//! painted into the back buffer and then discarded.

use vstd::prelude::*;

use crate::event::Event;
use crate::event::EventResult;
use crate::layout::containers::Column;
use crate::layout::containers::Row;
use crate::layout::Length;
use crate::layout::Rect;
use crate::render::buffer::Buffer;
use crate::render::buffer::Cell;
use crate::state::Store;
use crate::theme::Style;

pub mod widgets;

pub use widgets::Button;
pub use widgets::HStack;
pub use widgets::Input;
pub use widgets::List;
pub use widgets::Modal;
pub use widgets::Panel;
pub use widgets::ProgressBar;
pub use widgets::Scrollable;
pub use widgets::SortOrder;
pub use widgets::Table;
pub use widgets::TableColumn;
pub use widgets::Tabs;
pub use widgets::Text;
pub use widgets::VStack;

verus! {

/// What a component sees while rendering: its assigned area, the current
/// style, and the shared store.
pub struct RenderContext<'a> {
    pub area: Rect,
    pub style: Style,
    pub store: &'a Store,
}

impl<'a> RenderContext<'a> {
    pub fn new(area: Rect, store: &'a Store) -> (r: RenderContext<'a>)
        ensures
            r.area == area,
            r.style == crate::render::buffer::style_default(),
    {
        RenderContext { area, style: Style::new(), store }
    }
}

/// What a component sees while mounting or unmounting.
pub struct MountContext<'a> {
    pub store: &'a Store,
}

/// What a component sees while updating.
pub struct UpdateContext<'a> {
    pub store: &'a Store,
}

/// What a component sees while handling an event: the store and the area
/// it was last rendered into, for hit testing.
pub struct EventContext<'a> {
    pub store: &'a Store,
    pub area: Rect,
}

/// How a container arranges its children.
#[derive(Debug, Clone, Copy, PartialEq, Eq, Structural)]
pub enum ContainerDirection {
    Vertical,
    Horizontal,
    Stacked,
}

/// One node of the frame's view tree.
#[derive(Debug)]
pub enum ViewNode {
    /// A run of text in one style.
    Text { content: String, style: Style },
    /// A container whose children share its area.
    Container {
        children: Vec<ViewNode>,
        area: Rect,
        style: Style,
        direction: ContainerDirection,
    },
    /// Nothing.
    Empty,
}

impl ViewNode {
    /// A text node with the default style.
    pub fn text(content: String) -> (r: ViewNode)
        ensures
            r matches ViewNode::Text { content: c, style } && c@ == content@ && style
                == crate::render::buffer::style_default(),
    {
        ViewNode::Text { content, style: Style::new() }
    }

    /// A text node with a style.
    pub fn text_styled(content: String, style: Style) -> (r: ViewNode)
        ensures
            r matches ViewNode::Text { content: c, style: st } && c@ == content@ && st
                == style,
    {
        ViewNode::Text { content, style }
    }

    /// A vertical container.
    pub fn container(children: Vec<ViewNode>) -> (r: ViewNode)
        ensures
            r matches ViewNode::Container { direction, .. } && direction
                == ContainerDirection::Vertical,
    {
        ViewNode::Container {
            children,
            area: Rect { x: 0, y: 0, width: 0, height: 0 },
            style: Style::new(),
            direction: ContainerDirection::Vertical,
        }
    }

    /// A container with an explicit direction.
    pub fn container_with_direction(children: Vec<ViewNode>, direction: ContainerDirection) -> (r:
        ViewNode)
        ensures
            r matches ViewNode::Container { direction: d, .. } && d == direction,
    {
        ViewNode::Container {
            children,
            area: Rect { x: 0, y: 0, width: 0, height: 0 },
            style: Style::new(),
            direction,
        }
    }

    /// An empty node.
    pub fn empty() -> (r: ViewNode)
        ensures
            r is Empty,
    {
        ViewNode::Empty
    }

    /// Paint this node into the buffer.  A text node writes its content
    /// cell by cell at the top left of the area, stopping at the right
    /// edge and touching nothing else; a container splits its area into
    /// equal weighted shares along its direction and paints each child
    /// into its share; an empty node paints nothing at all.  The buffer
    /// keeps its size.
    #[verifier::loop_isolation(false)]
    pub fn render(&self, buffer: &mut Buffer, area: Rect, style: Style)
        requires
            old(buffer).wf(),
        ensures
            final(buffer).wf(),
            final(buffer).width == old(buffer).width,
            final(buffer).height == old(buffer).height,
            self is Empty ==> *final(buffer) == *old(buffer),
            self matches ViewNode::Text { content, style: tstyle } ==> (forall|i: int|
                0 <= i < content@.len() && area.x + i <= u16::MAX && old(buffer).in_bounds(
                    area.x + i,
                    area.y as int,
                ) ==> final(buffer).spec_cell(area.x + i, area.y as int) == (Cell {
                    ch: content@[i],
                    style: *tstyle,
                })),
            self matches ViewNode::Text { content, .. } ==> (forall|px: int, py: int|
                old(buffer).in_bounds(px, py) && (py != area.y as int || px < area.x || px
                    >= area.x + content@.len()) ==> final(buffer).spec_cell(px, py) == old(
                    buffer,
                ).spec_cell(px, py)),
            forall|px: int, py: int|
                old(buffer).in_bounds(px, py) && (px < area.x || py < area.y)
                    ==> final(buffer).spec_cell(px, py) == old(buffer).spec_cell(px, py),
        decreases *self,
    {
        match self {
            ViewNode::Text { content, style: text_style } => {
                buffer.write_str(area.x, area.y, content.as_str(), *text_style);
            },
            ViewNode::Container { children, direction, .. } => {
                if children.len() == 0 {
                    return ;
                }
                let child_rects = match direction {
                    ContainerDirection::Vertical => {
                        let col = Column::new();
                        let heights = equal_fills(children.len());
                        col.layout(area, heights.as_slice())
                    },
                    ContainerDirection::Horizontal => {
                        let row = Row::new();
                        let widths = equal_fills(children.len());
                        row.layout(area, widths.as_slice())
                    },
                    ContainerDirection::Stacked => {
                        let mut rects: Vec<Rect> = Vec::new();
                        let mut k: usize = 0;
                        while k < children.len()
                            invariant
                                rects@.len() == k,
                                0 <= k <= children@.len(),
                            decreases children@.len() - k,
                        {
                            rects.push(area);
                            k = k + 1;
                        }
                        rects
                    },
                };
                let mut i: usize = 0;
                while i < children.len()
                    invariant
                        0 <= i <= children@.len(),
                        buffer.wf(),
                        buffer.width == old(buffer).width,
                        buffer.height == old(buffer).height,
                        forall|px: int, py: int|
                            old(buffer).in_bounds(px, py) && (px < area.x || py < area.y)
                                ==> buffer.spec_cell(px, py) == old(buffer).spec_cell(px, py),
                    decreases children@.len() - i,
                {
                    let placed = if i < child_rects.len() {
                        child_rects[i]
                    } else {
                        area
                    };
                    // a child never paints above or left of its container
                    let child_area = Rect {
                        x: if placed.x >= area.x {
                            placed.x
                        } else {
                            area.x
                        },
                        y: if placed.y >= area.y {
                            placed.y
                        } else {
                            area.y
                        },
                        ..placed
                    };
                    proof {
                        assert(children@ == (*self)->Container_children@);
                        assert(decreases_to!(*self => (*self)->Container_children));
                        assert(decreases_to!((*self)->Container_children
                            => (*self)->Container_children@));
                        assert(decreases_to!((*self)->Container_children@
                            => (*self)->Container_children@[i as int]));
                        assert(decreases_to!(*self => children@[i as int]));
                    }
                    children[i].render(buffer, child_area, style);
                    i = i + 1;
                }
            },
            ViewNode::Empty => {},
        }
    }
}

/// One `Fill(1)` entry per child: every child gets an equal share.
fn equal_fills(n: usize) -> (r: Vec<Length>)
    ensures
        r@.len() == n,
        forall|i: int| 0 <= i < r@.len() ==> r@[i] == Length::Fill(1u16),
{
    let mut v: Vec<Length> = Vec::new();
    let mut i: usize = 0;
    while i < n
        invariant
            0 <= i <= n,
            v@.len() == i,
            forall|k: int| 0 <= k < i ==> v@[k] == Length::Fill(1u16),
        decreases n - i,
    {
        v.push(Length::Fill(1));
        i = i + 1;
    }
    v
}

/// The lifecycle every component implements: render each frame, mount and
/// unmount around its life in the tree, update on state changes, and react
/// to events before the default handling.
pub trait Component {
    /// Produce this frame's view subtree; called at most once per frame.
    fn render(&self, ctx: &RenderContext) -> ViewNode;

    /// Called once when the component enters the tree.
    fn mount(&mut self, ctx: &mut MountContext) {
    }

    /// Called once when the component leaves the tree.
    fn unmount(&mut self, ctx: &mut MountContext) {
    }

    /// Called when reactive state changed; the result requests a
    /// re-render this frame.
    fn update(&mut self, ctx: &mut UpdateContext) -> bool {
        true
    }

    /// React to an event before default handling; `Consumed` stops the
    /// frame loop's default dispatch.
    fn handle_event(&mut self, event: &Event, ctx: &mut EventContext) -> EventResult {
        EventResult::Ignored
    }
}

/// Conversion into a component.
pub trait IntoComponent {
    type Component: Component;

    /// The component this value turns into.
    fn into_component(self) -> Self::Component;
}

} // verus!
