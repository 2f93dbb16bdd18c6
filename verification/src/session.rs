//! The interactive session's decisions: what each input event changes, and
//! when the display is redrawn and a new render requested.
//!
//! The session keeps the raster size, the gesture in progress and the latest
//! image. The viewport rectangle and the pointer positions are kept by the
//! caller, who hands every event to the session and carries out the
//! `Reaction`, in this order: abandon the gesture named in `reset`, change the
//! viewport as `view` says, submit the render request that `render` orders,
//! redraw.

use crate::image::{renderable, renderable_spec, Image, ImageView};
use vstd::prelude::*;

verus! {

/// Raster pixels per display unit, along each axis: images are rendered at
/// twice the display's size and scaled down to it when painted.
pub const DENSITY: usize = 2;

/// The two drag gestures. At most one is in progress at a time.
#[derive(Clone, Copy, Debug, PartialEq, Eq, Structural)]
pub enum Gesture {
    /// Dragging out a rectangle to zoom into.
    Zoom,
    /// Dragging the view along.
    Pan,
}

/// How the caller changes the viewport.
#[derive(Clone, Copy, Debug, PartialEq, Eq, Structural)]
pub enum ViewChange {
    /// Not at all.
    Keep,
    /// The display went from the old size to the new one: the viewport's width
    /// is multiplied by `new_width / old_width`, its height by
    /// `new_height / old_height`. Its top left corner stays where it is.
    Rescale { old_width: usize, old_height: usize, new_width: usize, new_height: usize },
    /// The viewport becomes the part of it that the selection rectangle, locked
    /// to the display's aspect ratio, covers.
    Zoom,
    /// The viewport's origin moves by the drag offset, against its direction.
    Pan,
}

/// A render request to submit: the current viewport, moved by the offset of
/// the pan in progress if `live_pan` is set, into a raster of the target size.
#[derive(Clone, Copy, Debug, PartialEq, Eq, Structural)]
pub struct RenderOrder {
    pub target_width: usize,
    pub target_height: usize,
    pub live_pan: bool,
}

/// What the caller does after an event.
#[derive(Clone, Copy, Debug, PartialEq, Eq, Structural)]
pub struct Reaction {
    /// A gesture to abandon, whether or not it is in progress.
    pub reset: Option<Gesture>,
    pub view: ViewChange,
    pub render: Option<RenderOrder>,
    pub redraw: bool,
}

/// The session's state.
pub struct Session {
    width: usize,
    height: usize,
    active: Option<Gesture>,
    image: Option<Image>,
}

/// What a session holds: the display's size, the gesture in progress and the
/// image on display.
pub struct SessionView {
    pub width: usize,
    pub height: usize,
    pub active: Option<Gesture>,
    pub image: Option<ImageView>,
}

impl View for Session {
    type V = SessionView;

    closed spec fn view(&self) -> SessionView {
        SessionView {
            width: self.width,
            height: self.height,
            active: self.active,
            image: match self.image {
                Some(image) => Some(image@),
                None => None,
            },
        }
    }
}

/// The reaction that asks for nothing.
pub open spec fn nothing() -> Reaction {
    Reaction { reset: None, view: ViewChange::Keep, render: None, redraw: false }
}

impl SessionView {
    /// The render request that the session would submit now: for a raster of
    /// `DENSITY` times the display's size, if such a raster can be rendered.
    /// For a display without extent there is none.
    pub open spec fn order(self) -> Option<RenderOrder> {
        if DENSITY * self.width <= usize::MAX && DENSITY * self.height <= usize::MAX
            && renderable_spec((DENSITY * self.width) as usize, (DENSITY * self.height) as usize) {
            Some(
                RenderOrder {
                    target_width: (DENSITY * self.width) as usize,
                    target_height: (DENSITY * self.height) as usize,
                    live_pan: self.active == Some(Gesture::Pan),
                },
            )
        } else {
            None
        }
    }

    /// The display was given a size. If it is the size it had, nothing
    /// happens. Otherwise the viewport is rescaled, provided none of the four
    /// dimensions is zero; the new size is kept, the display redrawn and a
    /// render requested.
    pub open spec fn resized(self, width: usize, height: usize) -> (SessionView, Reaction) {
        if width == self.width && height == self.height {
            (self, nothing())
        } else {
            let next = SessionView { width, height, ..self };
            let view = if self.width != 0 && self.height != 0 && width != 0 && height != 0 {
                ViewChange::Rescale {
                    old_width: self.width,
                    old_height: self.height,
                    new_width: width,
                    new_height: height,
                }
            } else {
                ViewChange::Keep
            };
            (next, Reaction { reset: None, view, render: next.order(), redraw: true })
        }
    }

    /// A drag began. It is now the gesture in progress, and the other gesture
    /// is abandoned.
    pub open spec fn drag_begun(self, gesture: Gesture) -> (SessionView, Reaction) {
        let other = match gesture {
            Gesture::Zoom => Gesture::Pan,
            Gesture::Pan => Gesture::Zoom,
        };
        (
            SessionView { active: Some(gesture), ..self },
            Reaction { reset: Some(other), ..nothing() },
        )
    }

    /// The pointer moved during a drag. For the gesture in progress the
    /// display is redrawn, and during a pan a render of the moved view is
    /// requested. For any other gesture nothing happens.
    pub open spec fn drag_updated(self, gesture: Gesture) -> (SessionView, Reaction) {
        if self.active != Some(gesture) {
            (self, nothing())
        } else {
            match gesture {
                Gesture::Zoom => (self, Reaction { redraw: true, ..nothing() }),
                Gesture::Pan => (self, Reaction { render: self.order(), redraw: true, ..nothing() }),
            }
        }
    }

    /// A drag ended. `usable` says whether the viewport that the drag leads to
    /// has an extent; the caller finds that out, the rectangles being its own.
    ///
    /// If the gesture is the one in progress and leads somewhere, it is
    /// committed: the viewport changes, a render is requested and the display
    /// redrawn; after a zoom the image on display is dropped, since it shows
    /// the old view. If it leads nowhere it is dropped: the viewport stays, and
    /// after a zoom the display is redrawn without the selection. Either way no
    /// gesture is in progress afterwards. The end of any other gesture, such
    /// as one that was cancelled or abandoned, changes nothing.
    pub open spec fn drag_ended(self, gesture: Gesture, usable: bool) -> (SessionView, Reaction) {
        if self.active != Some(gesture) {
            (self, nothing())
        } else {
            let idle = SessionView { active: None, ..self };
            match gesture {
                Gesture::Zoom => if usable {
                    (
                        SessionView { image: None, ..idle },
                        Reaction {
                            reset: None,
                            view: ViewChange::Zoom,
                            render: idle.order(),
                            redraw: true,
                        },
                    )
                } else {
                    (idle, Reaction { redraw: true, ..nothing() })
                },
                Gesture::Pan => if usable {
                    (
                        idle,
                        Reaction {
                            reset: None,
                            view: ViewChange::Pan,
                            render: idle.order(),
                            redraw: true,
                        },
                    )
                } else {
                    (idle, nothing())
                },
            }
        }
    }

    /// A drag was cancelled. If it is the gesture in progress, none is
    /// afterwards; nothing else changes.
    pub open spec fn drag_cancelled(self, gesture: Gesture) -> (SessionView, Reaction) {
        if self.active == Some(gesture) {
            (SessionView { active: None, ..self }, nothing())
        } else {
            (self, nothing())
        }
    }

    /// The key that cancels a selection was pressed: the zoom gesture is
    /// abandoned and the display redrawn.
    pub open spec fn key_cancelled(self) -> (SessionView, Reaction) {
        (
            if self.active == Some(Gesture::Zoom) {
                SessionView { active: None, ..self }
            } else {
                self
            },
            Reaction { reset: Some(Gesture::Zoom), redraw: true, ..nothing() },
        )
    }

    /// The worker delivered an image: it goes on display.
    pub open spec fn render_done(self, image: ImageView) -> (SessionView, Reaction) {
        (SessionView { image: Some(image), ..self }, Reaction { redraw: true, ..nothing() })
    }
}

impl Session {
    /// A session before the display has a size: no gesture, no image.
    pub fn new() -> (session: Session)
        ensures
            session@ == (SessionView { width: 0, height: 0, active: None, image: None }),
    {
        Session { width: 0, height: 0, active: None, image: None }
    }

    /// The display's size.
    pub fn size(&self) -> (size: (usize, usize))
        ensures
            size == (self@.width, self@.height),
    {
        (self.width, self.height)
    }

    /// The gesture in progress.
    pub fn active(&self) -> (active: Option<Gesture>)
        ensures
            active == self@.active,
    {
        self.active
    }

    /// Whether a selection rectangle is being dragged out, and so is to be
    /// painted.
    pub fn selecting(&self) -> (selecting: bool)
        ensures
            selecting == (self@.active == Some(Gesture::Zoom)),
    {
        match self.active {
            Some(Gesture::Zoom) => true,
            _ => false,
        }
    }

    /// The image on display.
    pub fn image(&self) -> (image: Option<&Image>)
        ensures
            image is Some == self@.image is Some,
            image matches Some(i) ==> self@.image == Some(i@),
    {
        self.image.as_ref()
    }

    /// The render request to submit for the session as it stands.
    pub fn render_order(&self) -> (order: Option<RenderOrder>)
        ensures
            order == self@.order(),
    {
        let target_width = match self.width.checked_mul(DENSITY) {
            Some(n) => n,
            None => {
                return None;
            },
        };
        let target_height = match self.height.checked_mul(DENSITY) {
            Some(n) => n,
            None => {
                return None;
            },
        };
        if renderable(target_width, target_height) {
            let live_pan = match self.active {
                Some(Gesture::Pan) => true,
                _ => false,
            };
            Some(RenderOrder { target_width, target_height, live_pan })
        } else {
            None
        }
    }

    /// The display was given a size.
    pub fn on_resize(&mut self, width: usize, height: usize) -> (reaction: Reaction)
        ensures
            (final(self)@, reaction) == old(self)@.resized(width, height),
    {
        if width == self.width && height == self.height {
            return Reaction { reset: None, view: ViewChange::Keep, render: None, redraw: false };
        }
        let view = if self.width != 0 && self.height != 0 && width != 0 && height != 0 {
            ViewChange::Rescale {
                old_width: self.width,
                old_height: self.height,
                new_width: width,
                new_height: height,
            }
        } else {
            ViewChange::Keep
        };
        self.width = width;
        self.height = height;
        Reaction { reset: None, view, render: self.render_order(), redraw: true }
    }

    /// A drag began.
    pub fn on_drag_begin(&mut self, gesture: Gesture) -> (reaction: Reaction)
        ensures
            (final(self)@, reaction) == old(self)@.drag_begun(gesture),
    {
        let other = match gesture {
            Gesture::Zoom => Gesture::Pan,
            Gesture::Pan => Gesture::Zoom,
        };
        self.active = Some(gesture);
        Reaction { reset: Some(other), view: ViewChange::Keep, render: None, redraw: false }
    }

    /// The pointer moved during a drag.
    pub fn on_drag_update(&mut self, gesture: Gesture) -> (reaction: Reaction)
        ensures
            (final(self)@, reaction) == old(self)@.drag_updated(gesture),
    {
        if !self.in_progress(gesture) {
            return Reaction { reset: None, view: ViewChange::Keep, render: None, redraw: false };
        }
        match gesture {
            Gesture::Zoom => Reaction {
                reset: None,
                view: ViewChange::Keep,
                render: None,
                redraw: true,
            },
            Gesture::Pan => Reaction {
                reset: None,
                view: ViewChange::Keep,
                render: self.render_order(),
                redraw: true,
            },
        }
    }

    /// A drag ended with the pointer released.
    pub fn on_drag_end(&mut self, gesture: Gesture, usable: bool) -> (reaction: Reaction)
        ensures
            (final(self)@, reaction) == old(self)@.drag_ended(gesture, usable),
    {
        if !self.in_progress(gesture) {
            return Reaction { reset: None, view: ViewChange::Keep, render: None, redraw: false };
        }
        self.active = None;
        if !usable {
            let redraw = match gesture {
                Gesture::Zoom => true,
                Gesture::Pan => false,
            };
            return Reaction { reset: None, view: ViewChange::Keep, render: None, redraw };
        }
        let render = self.render_order();
        match gesture {
            Gesture::Zoom => {
                self.image = None;
                Reaction { reset: None, view: ViewChange::Zoom, render, redraw: true }
            },
            Gesture::Pan => Reaction { reset: None, view: ViewChange::Pan, render, redraw: true },
        }
    }

    /// A drag was cancelled.
    pub fn on_drag_cancel(&mut self, gesture: Gesture) -> (reaction: Reaction)
        ensures
            (final(self)@, reaction) == old(self)@.drag_cancelled(gesture),
    {
        if self.in_progress(gesture) {
            self.active = None;
        }
        Reaction { reset: None, view: ViewChange::Keep, render: None, redraw: false }
    }

    /// The key that cancels a selection was pressed.
    pub fn on_key_cancel(&mut self) -> (reaction: Reaction)
        ensures
            (final(self)@, reaction) == old(self)@.key_cancelled(),
    {
        if self.in_progress(Gesture::Zoom) {
            self.active = None;
        }
        Reaction {
            reset: Some(Gesture::Zoom),
            view: ViewChange::Keep,
            render: None,
            redraw: true,
        }
    }

    /// The worker delivered an image.
    pub fn on_render_done(&mut self, image: Image) -> (reaction: Reaction)
        ensures
            (final(self)@, reaction) == old(self)@.render_done(image@),
    {
        self.image = Some(image);
        Reaction { reset: None, view: ViewChange::Keep, render: None, redraw: true }
    }

    fn in_progress(&self, gesture: Gesture) -> (yes: bool)
        ensures
            yes == (self@.active == Some(gesture)),
    {
        match (self.active, gesture) {
            (Some(Gesture::Zoom), Gesture::Zoom) => true,
            (Some(Gesture::Pan), Gesture::Pan) => true,
            _ => false,
        }
    }
}

/// No degenerate raster is requested: every render request that the session
/// orders is for a raster that can be rendered, with both dimensions twice the
/// display's and at least two.
pub proof fn lemma_orders_are_renderable(session: SessionView)
    ensures
        session.order() matches Some(order) ==> {
            &&& renderable_spec(order.target_width, order.target_height)
            &&& order.target_width == DENSITY * session.width
            &&& order.target_height == DENSITY * session.height
            &&& session.width >= 1
            &&& session.height >= 1
        },
{
}

/// A resize never moves the viewport's origin, and rescales its extent only
/// between two sizes without a zero dimension.
pub proof fn lemma_resize_rescales(session: SessionView, width: usize, height: usize)
    ensures
        ({
            let (next, reaction) = session.resized(width, height);
            &&& next.width == width
            &&& next.height == height
            &&& next.active == session.active
            &&& next.image == session.image
            &&& reaction.view is Rescale <==> (width != session.width || height != session.height)
                && session.width != 0 && session.height != 0 && width != 0 && height != 0
            &&& !(reaction.view is Rescale) ==> reaction.view is Keep
        }),
{
}

/// A gesture that was cancelled or abandoned commits nothing when it ends.
pub proof fn lemma_cancelled_gesture_commits_nothing(
    session: SessionView,
    gesture: Gesture,
    usable: bool,
)
    ensures
        ({
            let cancelled = session.drag_cancelled(gesture).0;
            cancelled.drag_ended(gesture, usable) == (cancelled, nothing())
        }),
        ({
            let other = session.drag_begun(gesture).1.reset->0;
            let begun = session.drag_begun(gesture).0;
            other != gesture && begun.drag_ended(other, usable) == (begun, nothing())
        }),
        ({
            let cancelled = session.key_cancelled().0;
            cancelled.drag_ended(Gesture::Zoom, usable) == (cancelled, nothing())
        }),
{
}

/// The viewport changes only when a drag that leads somewhere is committed,
/// or when the display changes its size.
pub proof fn lemma_view_changes_on_commit_only(session: SessionView, gesture: Gesture)
    ensures
        session.drag_begun(gesture).1.view is Keep,
        session.drag_updated(gesture).1.view is Keep,
        session.drag_cancelled(gesture).1.view is Keep,
        session.key_cancelled().1.view is Keep,
        session.drag_ended(gesture, false).1.view is Keep,
        session.drag_ended(gesture, false).1.render is None,
        session.drag_ended(gesture, true).1.view is Keep <==> session.active != Some(gesture),
{
}

} // verus!
