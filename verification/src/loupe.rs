//! A wrapper that magnifies its content around the cursor.

use vstd::prelude::*;
use vstd::arithmetic::mul::lemma_mul_is_distributive_sub_other_way;
use crate::batch::{batched, lemma_layer_clips_its_content};
use crate::event::Event;
use crate::geometry::{Point, Rectangle, Size};
use crate::layout::{Layout, Length, Limits, Node};
use crate::mouse::{Cursor, Interaction};
use crate::render::{
    balanced, lemma_balanced_in_layer, lemma_balanced_in_transformation, Command, Renderer,
};
use crate::transformation::{Affine, Transformation, Zoom};
use crate::tree::{State, Tag, Tree};
use crate::widget::Widget;

verus! {

/// The map that magnifies by `zoom` and keeps the point `cursor` where it is:
/// `p -> zoom * p + (1 - zoom) * cursor`.
pub open spec fn magnification(cursor: Point, zoom: Zoom) -> Affine {
    Affine {
        scale: zoom.numer(),
        dx: (zoom.denom() - zoom.numer()) * cursor.x,
        dy: (zoom.denom() - zoom.numer()) * cursor.y,
        denom: zoom.denom(),
    }
}

/// The same map, built in three steps for a loupe that occupies `bounds`:
/// move the corner of `bounds` to the origin, scale by `zoom`, and move the
/// origin to the corner plus `(1 - zoom)` times the cursor's position within
/// `bounds`.
pub open spec fn magnification_in_steps(bounds: Rectangle, cursor: Point, zoom: Zoom) -> Affine {
    let n = zoom.numer();
    let d = zoom.denom();
    let local_x = cursor.x - bounds.x;
    let local_y = cursor.y - bounds.y;
    Affine::translation(d * bounds.x + local_x * (d - n), d * bounds.y + local_y * (d - n), d).after(
        Affine::scaling(n, d),
    ).after(Affine::translation(-bounds.x, -bounds.y, 1))
}

/// Returns the map that magnifies by `zoom` around `cursor`. The map keeps
/// `cursor` where it is.
pub fn magnify(cursor: Point, zoom: Zoom) -> (transformation: Transformation)
    ensures
        transformation@ == magnification(cursor, zoom),
        transformation@.sends(cursor, cursor),
{
    let n: i64 = zoom.numerator() as i64;
    let d: i64 = zoom.denominator() as i64;
    proof {
        lemma_cursor_stays(cursor, zoom);
    }
    let spread: i64 = d - n;
    assert(-0x1_0000 * 0x8000_0000 <= spread * cursor.x <= 0x1_0000 * 0x8000_0000) by (nonlinear_arith)
        requires
            -0x1_0000 < spread < 0x1_0000,
            -0x8000_0000 <= cursor.x < 0x8000_0000,
    ;
    assert(-0x1_0000 * 0x8000_0000 <= spread * cursor.y <= 0x1_0000 * 0x8000_0000) by (nonlinear_arith)
        requires
            -0x1_0000 < spread < 0x1_0000,
            -0x8000_0000 <= cursor.y < 0x8000_0000,
    ;
    let dx: i64 = spread * (cursor.x as i64);
    let dy: i64 = spread * (cursor.y as i64);
    Transformation::over(n, dx, dy, d)
}

/// How a loupe shows its content at one moment.
#[derive(Clone, Copy, Debug, PartialEq, Eq)]
pub enum Lens {
    /// Magnified: in a layer of the loupe's bounds, through the
    /// transformation, and with no cursor for the content to react to.
    Magnifying { transformation: Transformation },
    /// As it is, with the cursor as it is.
    Clear,
}

/// How a loupe of factor `zoom` that occupies `bounds` shows its content
/// when the cursor is `cursor`: magnified around the cursor while the cursor
/// is over the loupe, and as it is otherwise.
pub open spec fn lens_for(zoom: Zoom, bounds: Rectangle, cursor: Cursor) -> Lens {
    if cursor.over(bounds) {
        Lens::Magnifying {
            transformation: Transformation::with_view(magnification(cursor->0, zoom)),
        }
    } else {
        Lens::Clear
    }
}

/// Returns how a loupe of factor `zoom` that occupies `bounds` shows its
/// content when the cursor is `cursor`.
pub fn lens(zoom: Zoom, bounds: Rectangle, cursor: Cursor) -> (lens: Lens)
    ensures
        lens == lens_for(zoom, bounds, cursor),
        lens matches Lens::Magnifying { transformation } ==> transformation@ == magnification(
            cursor->0,
            zoom,
        ),
{
    match cursor.position_over(bounds) {
        Some(position) => {
            let transformation: Transformation = magnify(position, zoom);
            proof {
                transformation.lemma_view_is_faithful();
            }
            Lens::Magnifying { transformation }
        },
        None => Lens::Clear,
    }
}

/// The magnification keeps the cursor where it is, whatever the factor.
pub proof fn lemma_cursor_stays(cursor: Point, zoom: Zoom)
    requires
        zoom.well_formed(),
    ensures
        magnification(cursor, zoom).sends(cursor, cursor),
{
    lemma_fixed_axis(zoom.numer(), zoom.denom(), cursor.x as int);
    lemma_fixed_axis(zoom.numer(), zoom.denom(), cursor.y as int);
}

proof fn lemma_fixed_axis(n: int, d: int, c: int)
    ensures
        n * c + (d - n) * c == d * c,
{
    lemma_mul_is_distributive_sub_other_way(c, d, n);
}

/// The three steps make the magnification, wherever the loupe lies.
pub proof fn lemma_steps_make_magnification(bounds: Rectangle, cursor: Point, zoom: Zoom)
    requires
        zoom.well_formed(),
    ensures
        magnification_in_steps(bounds, cursor, zoom).well_formed(),
        magnification(cursor, zoom).same_map(magnification_in_steps(bounds, cursor, zoom)),
{
    let n = zoom.numer();
    let d = zoom.denom();
    let steps = magnification_in_steps(bounds, cursor, zoom);
    let direct = magnification(cursor, zoom);
    assert(steps.denom == d * d * 1);
    assert(d * d > 0) by (nonlinear_arith)
        requires
            d > 0,
    ;
    assert(steps.scale == d * n * 1);
    assert(direct.scale * steps.denom == steps.scale * direct.denom) by (nonlinear_arith)
        requires
            direct.scale == n,
            direct.denom == d,
            steps.denom == d * d,
            steps.scale == d * n,
    ;
    lemma_steps_axis(n, d, bounds.x as int, cursor.x as int);
    lemma_steps_axis(n, d, bounds.y as int, cursor.y as int);
}

proof fn lemma_steps_axis(n: int, d: int, b: int, c: int)
    ensures
        ((d - n) * c) * (d * d * 1) == ((d * n) * (-b) + (d * 0 + (d * b + (c - b) * (d - n)) * d) * 1) * d,
{
    let e = d - n;
    let x = d * b + (c - b) * e;
    assert(x == d * b + c * e - b * e) by (nonlinear_arith)
        requires
            x == d * b + (c - b) * e,
    ;
    assert(b * e == b * d - b * n) by (nonlinear_arith)
        requires
            e == d - n,
    ;
    assert(d * b == b * d) by (nonlinear_arith);
    assert(x == c * e + b * n);
    assert((d * n) * (-b) == -((b * n) * d)) by (nonlinear_arith);
    assert(x * d == (c * e) * d + (b * n) * d) by (nonlinear_arith)
        requires
            x == c * e + b * n,
    ;
    let inner = (d * n) * (-b) + (d * 0 + x * d) * 1;
    assert(inner == (c * e) * d);
    assert(inner * d == (e * c) * (d * d * 1)) by (nonlinear_arith)
        requires
            inner == (c * e) * d,
    ;
}

/// A widget that shows its content magnified around the cursor while the
/// cursor is over it, and as it is otherwise.
pub struct Loupe<W> {
    zoom: Zoom,
    content: W,
}

/// Wraps `content` in a loupe that magnifies by `zoom`.
pub fn loupe<W>(zoom: Zoom, content: W) -> (wrapper: Loupe<W>)
    ensures
        wrapper.zoom() == zoom,
        wrapper.content() == content,
{
    Loupe { zoom, content }
}

impl<W> Loupe<W> {
    /// The magnification factor.
    pub closed spec fn zoom(&self) -> Zoom {
        self.zoom
    }

    /// The widget that the loupe wraps.
    pub closed spec fn content(&self) -> W {
        self.content
    }

    /// Returns the magnification factor.
    pub fn factor(&self) -> (zoom: Zoom)
        ensures
            zoom == self.zoom(),
    {
        self.zoom
    }

    /// Returns the widget that the loupe wraps.
    pub fn inner(&self) -> (content: &W)
        ensures
            *content == self.content(),
    {
        &self.content
    }
}

impl<Message, W: Widget<Message>> Widget<Message> for Loupe<W> {
    open spec fn asks_width(&self, length: Length) -> bool {
        self.content().asks_width(length)
    }

    open spec fn asks_height(&self, length: Length) -> bool {
        self.content().asks_height(length)
    }

    open spec fn takes(&self, tree: Tree, limits: Limits, size: Size) -> bool {
        self.content().takes(tree, limits, size)
    }

    open spec fn keeps(&self, tag: Tag) -> bool {
        self.content().keeps(tag)
    }

    open spec fn starts_with(&self, state: State) -> bool {
        self.content().starts_with(state)
    }

    open spec fn starts_over(&self, children: Seq<Tree>) -> bool {
        self.content().starts_over(children)
    }

    open spec fn reconciles(&self, before: Tree, after: Tree) -> bool {
        self.content().reconciles(before, after)
    }

    open spec fn reacts(
        &self,
        tree: Tree,
        event: Event,
        bounds: Rectangle,
        cursor_position: Point,
        after: &Self,
        tree_after: Tree,
        messages: Seq<Message>,
    ) -> bool {
        &&& after.zoom() == self.zoom()
        &&& self.content().reacts(
            tree,
            event,
            bounds,
            cursor_position,
            &after.content(),
            tree_after,
            messages,
        )
    }

    open spec fn draws(
        &self,
        tree: Tree,
        bounds: Rectangle,
        cursor: Cursor,
        viewport: Rectangle,
        emitted: Seq<Command>,
        after: &Self,
    ) -> bool {
        &&& after.zoom() == self.zoom()
        &&& if cursor.over(bounds) {
            let last = emitted.len() - 1;
            &&& emitted.len() >= 4
            &&& emitted[0] == Command::BeginLayer { bounds }
            &&& emitted[1] matches Command::BeginTransformation { transformation }
            &&& transformation@ == magnification(cursor->0, self.zoom())
            &&& emitted[last - 1] == Command::EndTransformation
            &&& emitted[last] == Command::EndLayer
            &&& self.content().draws(
                tree,
                bounds,
                Cursor::Unavailable,
                viewport,
                emitted.subrange(2, last - 1),
                &after.content(),
            )
            &&& balanced(emitted.subrange(2, last - 1))
        } else {
            self.content().draws(tree, bounds, cursor, viewport, emitted, &after.content())
        }
    }

    open spec fn shows(
        &self,
        tree: Tree,
        bounds: Rectangle,
        cursor: Cursor,
        viewport: Rectangle,
        interaction: Interaction,
    ) -> bool {
        if cursor.over(bounds) {
            interaction == Interaction::ZoomIn
        } else {
            self.content().shows(tree, bounds, cursor, viewport, interaction)
        }
    }

    fn width(&self) -> (length: Length) {
        self.content.width()
    }

    fn height(&self) -> (length: Length) {
        self.content.height()
    }

    fn layout(&self, tree: &Tree, limits: &Limits) -> (node: Node) {
        self.content.layout(tree, limits)
    }

    fn tag(&self) -> (tag: Tag) {
        self.content.tag()
    }

    fn state(&self) -> (state: State) {
        self.content.state()
    }

    fn children(&self) -> (children: Vec<Tree>) {
        self.content.children()
    }

    fn diff(&self, tree: &mut Tree) {
        self.content.diff(tree);
    }

    fn on_event(
        &mut self,
        tree: &mut Tree,
        event: Event,
        layout: Layout<'_>,
        cursor_position: Point,
        messages: &mut Vec<Message>,
    )
        ensures
            final(self).zoom() == old(self).zoom(),
    {
        self.content.on_event(tree, event, layout, cursor_position, messages);
    }

    fn draw(
        &mut self,
        tree: &Tree,
        renderer: &mut Renderer,
        layout: Layout<'_>,
        cursor: Cursor,
        viewport: &Rectangle,
    )
        ensures
            final(self).zoom() == old(self).zoom(),
    {
        let bounds: Rectangle = layout.bounds();
        let ghost before = renderer@;
        match lens(self.zoom, bounds, cursor) {
            Lens::Magnifying { transformation } => {
                renderer.start_layer(bounds);
                renderer.start_transformation(transformation);
                let ghost opened = renderer@;
                self.content.draw(tree, renderer, layout, Cursor::Unavailable, viewport);
                let ghost drawn = renderer@;
                renderer.end_transformation();
                renderer.end_layer();
                proof {
                    let inner = drawn.skip(opened.len() as int);
                    let emitted = renderer@.skip(before.len() as int);
                    let open_layer = seq![Command::BeginLayer { bounds }];
                    let open_map = seq![Command::BeginTransformation { transformation }];
                    let close_map = seq![Command::EndTransformation];
                    let close_layer = seq![Command::EndLayer];
                    assert(drawn =~= opened + inner);
                    assert(emitted =~= open_layer + (open_map + inner + close_map) + close_layer);
                    assert(emitted.subrange(2, emitted.len() - 2) =~= inner);
                    assert(renderer@.take(before.len() as int) =~= before);
                    lemma_balanced_in_transformation(transformation, inner);
                    lemma_balanced_in_layer(bounds, open_map + inner + close_map);
                }
            },
            Lens::Clear => {
                self.content.draw(tree, renderer, layout, cursor, viewport);
            },
        }
    }

    fn mouse_interaction(
        &self,
        tree: &Tree,
        layout: Layout<'_>,
        cursor: Cursor,
        viewport: &Rectangle,
    ) -> (interaction: Interaction) {
        if cursor.is_over(layout.bounds()) {
            Interaction::ZoomIn
        } else {
            self.content.mouse_interaction(tree, layout, cursor, viewport)
        }
    }
}

/// While the cursor is not over the loupe, or there is none, the loupe draws
/// what its content draws and nothing else, and nothing but its content
/// changes by it.
pub proof fn lemma_inactive_loupe_is_transparent<Message, W: Widget<Message>>(
    wrapper: Loupe<W>,
    tree: Tree,
    bounds: Rectangle,
    cursor: Cursor,
    viewport: Rectangle,
    emitted: Seq<Command>,
    after: Loupe<W>,
)
    requires
        !cursor.over(bounds),
    ensures
        Widget::<Message>::draws(&wrapper, tree, bounds, cursor, viewport, emitted, &after) == (
        after.zoom() == wrapper.zoom() && Widget::<Message>::draws(
            &wrapper.content(),
            tree,
            bounds,
            cursor,
            viewport,
            emitted,
            &after.content(),
        )),
{
}

/// Wherever the cursor is over the loupe the pointer zooms, whatever the
/// content would show; everywhere else the loupe shows what the content
/// shows.
pub proof fn lemma_loupe_interaction<Message, W: Widget<Message>>(
    wrapper: Loupe<W>,
    tree: Tree,
    bounds: Rectangle,
    cursor: Cursor,
    viewport: Rectangle,
    interaction: Interaction,
)
    ensures
        cursor.over(bounds) ==> Widget::<Message>::shows(&wrapper, tree, bounds, cursor, viewport, interaction)
            == (interaction == Interaction::ZoomIn),
        !cursor.over(bounds) ==> Widget::<Message>::shows(&wrapper, tree, bounds, cursor, viewport, interaction)
            == Widget::<Message>::shows(&wrapper.content(), tree, bounds, cursor, viewport, interaction),
{
}

/// While the loupe magnifies, its content is drawn with no cursor to react
/// to, inside a transformation that keeps the cursor's position fixed, inside
/// a layer clipped to the loupe's bounds.
pub proof fn lemma_active_loupe_draws_in_layer<Message, W: Widget<Message>>(
    wrapper: Loupe<W>,
    tree: Tree,
    bounds: Rectangle,
    position: Point,
    viewport: Rectangle,
    emitted: Seq<Command>,
    after: Loupe<W>,
)
    requires
        bounds.covers(position),
        wrapper.zoom().well_formed(),
        Widget::<Message>::draws(
            &wrapper,
            tree,
            bounds,
            Cursor::Available(position),
            viewport,
            emitted,
            &after,
        ),
    ensures
        emitted.len() >= 4,
        emitted.first() == (Command::BeginLayer { bounds }),
        emitted.last() == Command::EndLayer,
        emitted[1] matches Command::BeginTransformation { transformation } && transformation@.sends(
            position,
            position,
        ),
        Widget::<Message>::draws(
            &wrapper.content(),
            tree,
            bounds,
            Cursor::Unavailable,
            viewport,
            emitted.subrange(2, emitted.len() - 2),
            &after.content(),
        ),
{
    lemma_cursor_stays(position, wrapper.zoom());
}

/// While the loupe magnifies, nothing of its content shows outside its
/// bounds, however far the magnification moves it: every mesh that comes of
/// the loupe's commands is clipped to them.
pub proof fn lemma_active_loupe_is_clipped<'a, Message, W: Widget<Message>>(
    wrapper: Loupe<W>,
    tree: Tree,
    bounds: Rectangle,
    position: Point,
    viewport: Rectangle,
    emitted: Seq<Command>,
    after: Loupe<W>,
    window: Rectangle,
)
    requires
        bounds.covers(position),
        Widget::<Message>::draws(
            &wrapper,
            tree,
            bounds,
            Cursor::Available(position),
            viewport,
            emitted,
            &after,
        ),
    ensures
        batched(emitted, window) matches Ok(meshes) ==> forall|k: int|
            0 <= k < meshes.len() ==> (#[trigger] meshes[k]).spec_clip_bounds().within(bounds),
{
    let last = emitted.len() - 1;
    let inner = emitted.subrange(2, last - 1);
    let transformation = emitted[1]->transformation;
    let scope = seq![Command::BeginTransformation { transformation }] + inner
        + seq![Command::EndTransformation];
    assert(emitted =~= seq![Command::BeginLayer { bounds }] + scope + seq![Command::EndLayer]);
    lemma_balanced_in_transformation(transformation, inner);
    lemma_layer_clips_its_content(bounds, scope, window);
}

} // verus!
