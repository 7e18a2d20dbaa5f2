//! The base widget: a placeholder in the normal flow that tracks the cursor and
//! hands its content to the overlay.

use vstd::prelude::*;
use iced::advanced::Shell;
use iced::Length;
use crate::geometry::{Anchor, Point, Rectangle, Vector};
use crate::host::request_redraw;
use crate::overlay::{Node, Overlay};
use crate::state::{changes, State};

verus! {

/// A widget that shows its content next to the mouse cursor.
///
/// `C` is the content: the widget owns it and never looks inside. The offset
/// is private and no method changes it in place: it is fixed when the widget is
/// built.
pub struct MouseLayer<C> {
    content: C,
    offset: Vector,
}

impl<C> MouseLayer<C> {
    /// The content the widget owns.
    pub closed spec fn spec_content(self) -> C {
        self.content
    }

    /// The displacement from the cursor to the content's top-left corner.
    pub closed spec fn spec_offset(self) -> Vector {
        self.offset
    }

    /// The layer with the same content and the displacement `(x, y)`.
    pub closed spec fn spec_with_offset(self, x: i32, y: i32) -> MouseLayer<C> {
        MouseLayer { content: self.content, offset: Vector { x, y } }
    }

    /// The overlay of a pass that begins with `stored` as the cursor location.
    pub open spec fn spec_overlay(
        self,
        stored: Option<Point>,
        viewport: Rectangle,
        translation: Vector,
    ) -> Overlay {
        Overlay { cursor_position: stored, offset: self.spec_offset(), translation, viewport }
    }

    /// Makes a layer around `content` that puts it right at the cursor.
    pub fn new(content: C) -> (layer: MouseLayer<C>)
        ensures
            layer.spec_content() == content,
            layer.spec_offset() == Vector::spec_zero(),
    {
        MouseLayer { content, offset: Vector::zero() }
    }

    /// Sets the displacement from the cursor to the content's top-left corner.
    pub fn offset(self, x: i32, y: i32) -> (layer: MouseLayer<C>)
        ensures
            layer == self.spec_with_offset(x, y),
            layer.spec_content() == self.spec_content(),
            layer.spec_offset() == (Vector { x, y }),
    {
        MouseLayer { content: self.content, offset: Vector::new(x, y) }
    }

    /// Returns the content.
    pub fn content(&self) -> (content: &C)
        ensures
            *content == self.spec_content(),
    {
        &self.content
    }

    /// Returns the content for the host to lay out, draw or update. The offset
    /// stays as it is, whatever is done to the content.
    pub fn content_mut(&mut self) -> (content: &mut C)
        ensures
            *content == old(self).spec_content(),
            final(self).spec_content() == *final(content),
            final(self).spec_offset() == old(self).spec_offset(),
    {
        &mut self.content
    }

    /// Returns the room the widget asks for in the normal flow, as width and
    /// height: the least there is, in both axes.
    pub fn size(&self) -> (size: (Length, Length))
        ensures
            size.0 == Length::Shrink,
            size.1 == Length::Shrink,
    {
        (Length::Shrink, Length::Shrink)
    }

    /// Lays the widget out in the normal flow: an empty node, without the
    /// content, which is laid out in the overlay only.
    pub fn layout(&self) -> (node: Node)
        ensures
            node == Node::spec_empty(),
    {
        Node::empty()
    }

    /// Takes in the cursor location of an event delivered to the widget.
    ///
    /// `state` then holds `cursor`. The host is asked for a new frame exactly
    /// when `cursor` differs from what `state` held, and the result says
    /// whether it was asked. The widget itself is not changed.
    pub fn update<Message>(
        &self,
        state: &mut State,
        cursor: Option<Point>,
        shell: &mut Shell<'_, Message>,
    ) -> (redraw: bool)
        ensures
            final(state)@ == cursor,
            redraw == changes(old(state)@, cursor),
    {
        let changed = state.observe(cursor);
        if changed {
            request_redraw(shell);
        }
        changed
    }

    /// Makes the overlay of one pass, whether or not a cursor location is
    /// known: it carries the location as `state` holds it, the widget's offset,
    /// and the viewport and translation of the pass.
    pub fn overlay(
        &self,
        state: &State,
        viewport: Rectangle,
        translation: Vector,
    ) -> (overlay: Overlay)
        ensures
            overlay == self.spec_overlay(state@, viewport, translation),
            overlay.cursor_position == state@,
            overlay.offset == self.spec_offset(),
    {
        Overlay {
            cursor_position: state.cursor_position(),
            offset: self.offset,
            translation,
            viewport,
        }
    }
}

/// Makes a layer around `content` that puts it right at the cursor.
pub fn mouse_layer<C>(content: C) -> (layer: MouseLayer<C>)
    ensures
        layer.spec_content() == content,
        layer.spec_offset() == Vector::spec_zero(),
{
    MouseLayer::new(content)
}

/// Law: the displacement given when the layer is built is the displacement of
/// every overlay it makes, whatever was stored, reported or supplied by the
/// host in between: the content is anchored at cursor + `(x, y)` + translation.
pub proof fn lemma_offset_is_fixed_when_built<C>(
    layer: MouseLayer<C>,
    x: i32,
    y: i32,
    stored: Option<Point>,
    viewport: Rectangle,
    translation: Vector,
)
    ensures
        layer.spec_with_offset(x, y).spec_content() == layer.spec_content(),
        layer.spec_with_offset(x, y).spec_offset() == (Vector { x, y }),
        layer.spec_with_offset(x, y).spec_overlay(stored, viewport, translation).offset
            == (Vector { x, y }),
        stored matches Some(cursor) ==> layer.spec_with_offset(x, y).spec_overlay(
            stored,
            viewport,
            translation,
        ).spec_anchor() == Some(
            Anchor {
                x: (cursor.x + x + translation.x) as i64,
                y: (cursor.y + y + translation.y) as i64,
            },
        ),
{
}

} // verus!
