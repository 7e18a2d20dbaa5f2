//! The overlay pass: where the content goes, and whether it is shown at all.

use vstd::prelude::*;
use iced::advanced::Shell;
use iced::mouse::Interaction;
use crate::geometry::{Anchor, Point, Rectangle, Size, Vector};
use crate::host::{default_interaction, request_redraw};
use crate::state::{changes, differs};

verus! {

/// The room the content is given to lay itself out in.
#[derive(Clone, Copy, Debug, PartialEq, Eq, Structural)]
pub struct Limits {
    pub min: Size,
    pub max: Size,
}

/// The outcome of a layout pass: a box, and whether the content sits in it.
#[derive(Clone, Copy, Debug, PartialEq, Eq, Structural)]
pub struct Node {
    /// The top-left corner of the box.
    pub origin: Anchor,
    /// The extent of the box.
    pub size: Size,
    /// Whether the content's own layout hangs below this node.
    pub holds_content: bool,
}

/// The region outside of which drawing is cut off.
#[derive(Clone, Copy, Debug, PartialEq, Eq, Structural)]
pub enum Clip {
    /// Nothing is cut off.
    Unbounded,
    /// Drawing is confined to the rectangle.
    Within(Rectangle),
}

/// An order to draw the content.
#[derive(Clone, Copy, Debug, PartialEq, Eq, Structural)]
pub struct Draw {
    /// The top-left corner the content is drawn at.
    pub origin: Anchor,
    /// The extent the content was laid out with.
    pub size: Size,
    /// The region the drawing is confined to.
    pub clip: Clip,
}

impl Node {
    /// The node that takes no room and holds nothing.
    pub open spec fn spec_empty() -> Node {
        Node { origin: Anchor::spec_origin(), size: Size::spec_zero(), holds_content: false }
    }

    /// Returns the node that takes no room and holds nothing.
    pub fn empty() -> (node: Node)
        ensures
            node == Node::spec_empty(),
    {
        Node { origin: Anchor::origin(), size: Size::zero(), holds_content: false }
    }
}

/// The overlay of one pass.
///
/// It is a plain value, made anew for every pass: it guards nothing, so its
/// fields are open.
#[derive(Clone, Copy, Debug, PartialEq, Eq, Structural)]
pub struct Overlay {
    /// The overlay's own copy of the cursor location, taken when the pass began.
    pub cursor_position: Option<Point>,
    /// The widget's displacement from the cursor.
    pub offset: Vector,
    /// The correction the host supplied for this pass.
    pub translation: Vector,
    /// The visible area the host supplied for this pass.
    pub viewport: Rectangle,
}

impl Overlay {
    /// Where the content is anchored: nowhere without a cursor, else at
    /// cursor + offset + translation.
    pub open spec fn spec_anchor(self) -> Option<Anchor> {
        match self.cursor_position {
            None => None,
            Some(cursor) => Some(Anchor::spec_of(cursor, self.offset, self.translation)),
        }
    }

    /// The room given to the content: any extent from nothing up to the
    /// viewport's. Without a cursor there is nothing to lay out.
    pub open spec fn spec_limits(self) -> Option<Limits> {
        match self.cursor_position {
            None => None,
            Some(_) => Some(Limits { min: Size::spec_zero(), max: self.viewport.spec_size() }),
        }
    }

    /// The layout of a pass in which the content asked for the extent `content`.
    pub open spec fn spec_layout(self, content: Size) -> Node {
        match self.spec_anchor() {
            None => Node::spec_empty(),
            Some(anchor) => Node { origin: anchor, size: content, holds_content: true },
        }
    }

    /// What is drawn for the layout `layout`.
    pub open spec fn spec_draw(self, layout: Node) -> Option<Draw> {
        if self.cursor_position is Some && layout.holds_content {
            Some(Draw { origin: layout.origin, size: layout.size, clip: Clip::Unbounded })
        } else {
            None
        }
    }

    /// Returns where the content is anchored in this pass, if anywhere.
    pub fn anchor(&self) -> (anchor: Option<Anchor>)
        ensures
            anchor == self.spec_anchor(),
            self.cursor_position is None <==> anchor is None,
            self.cursor_position matches Some(cursor) ==> {
                &&& anchor->Some_0.x == cursor.x + self.offset.x + self.translation.x
                &&& anchor->Some_0.y == cursor.y + self.offset.y + self.translation.y
            },
    {
        match self.cursor_position {
            None => None,
            Some(cursor) => Some(Anchor::of(cursor, self.offset, self.translation)),
        }
    }

    /// Returns the limits to lay the content out with, or nothing where there
    /// is no cursor and so nothing to lay out.
    pub fn limits(&self) -> (limits: Option<Limits>)
        ensures
            limits == self.spec_limits(),
    {
        match self.cursor_position {
            None => None,
            Some(_) => Some(Limits { min: Size::zero(), max: self.viewport.size() }),
        }
    }

    /// Lays the overlay out around content of extent `content`.
    ///
    /// Without a cursor the node is empty. With one, the node has the content's
    /// extent and sits at cursor + offset + translation, computed afresh and
    /// never clamped to the viewport.
    pub fn layout(&self, content: Size) -> (node: Node)
        ensures
            node == self.spec_layout(content),
            self.cursor_position is None ==> node == Node::spec_empty(),
            self.cursor_position matches Some(cursor) ==> {
                &&& node.holds_content
                &&& node.size == content
                &&& node.origin.x == cursor.x + self.offset.x + self.translation.x
                &&& node.origin.y == cursor.y + self.offset.y + self.translation.y
            },
    {
        match self.anchor() {
            None => Node::empty(),
            Some(anchor) => Node { origin: anchor, size: content, holds_content: true },
        }
    }

    /// Decides what to draw for `layout`: nothing without a cursor or without
    /// content in the layout, else the content where the layout put it, with
    /// nothing cut off.
    pub fn draw(&self, layout: &Node) -> (order: Option<Draw>)
        ensures
            order == self.spec_draw(*layout),
            self.cursor_position is None ==> order is None,
    {
        if self.cursor_position.is_none() {
            return None;
        }
        if !layout.holds_content {
            return None;
        }
        Some(Draw { origin: layout.origin, size: layout.size, clip: Clip::Unbounded })
    }

    /// Takes in the cursor location of an event delivered to the overlay.
    ///
    /// The overlay's copy of the location then is `cursor`, and nothing else
    /// of the overlay has changed. The host is asked for a new frame exactly
    /// when `cursor` differs from what the copy held, and the result says
    /// whether it was asked.
    pub fn update<Message>(
        &mut self,
        cursor: Option<Point>,
        shell: &mut Shell<'_, Message>,
    ) -> (redraw: bool)
        ensures
            *final(self) == (Overlay { cursor_position: cursor, ..*old(self) }),
            redraw == changes(old(self).cursor_position, cursor),
    {
        let changed = differs(self.cursor_position, cursor);
        if changed {
            self.cursor_position = cursor;
            request_redraw(shell);
        }
        changed
    }

    /// Returns the cursor icon the overlay asks for: the host's default one.
    pub fn mouse_interaction(&self) -> (interaction: Interaction)
        ensures
            interaction == Interaction::None,
    {
        default_interaction()
    }
}

/// Law: without a cursor the overlay lays out an empty node, whatever the
/// content asked for, and draws nothing, whatever layout it is handed.
pub proof fn lemma_no_cursor_shows_nothing(overlay: Overlay, content: Size, layout: Node)
    requires
        overlay.cursor_position is None,
    ensures
        overlay.spec_limits() is None,
        overlay.spec_layout(content) == Node::spec_empty(),
        overlay.spec_layout(content).size == Size::spec_zero(),
        overlay.spec_draw(layout) is None,
{
}

/// Law: with the cursor at `cursor`, the content is laid out and then drawn
/// with its top-left corner at cursor + offset + translation, exactly, for
/// every offset and translation, negative ones included, and wherever that
/// lies with respect to the viewport.
pub proof fn lemma_content_follows_cursor(overlay: Overlay, cursor: Point, content: Size)
    requires
        overlay.cursor_position == Some(cursor),
    ensures
        overlay.spec_layout(content).holds_content,
        overlay.spec_layout(content).size == content,
        overlay.spec_layout(content).origin.x == cursor.x + overlay.offset.x
            + overlay.translation.x,
        overlay.spec_layout(content).origin.y == cursor.y + overlay.offset.y
            + overlay.translation.y,
        overlay.spec_draw(overlay.spec_layout(content)) == Some(
            Draw {
                origin: overlay.spec_layout(content).origin,
                size: content,
                clip: Clip::Unbounded,
            },
        ),
{
}

} // verus!
