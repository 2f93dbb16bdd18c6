use mandelbrot::image::Image;
use mandelbrot::pixel::Pixel;
use mandelbrot::session::{Gesture, Reaction, RenderOrder, Session, ViewChange, DENSITY};

const NOTHING: Reaction =
    Reaction { reset: None, view: ViewChange::Keep, render: None, redraw: false };

fn order(target_width: usize, target_height: usize, live_pan: bool) -> Option<RenderOrder> {
    Some(RenderOrder { target_width, target_height, live_pan })
}

fn sized(width: usize, height: usize) -> Session {
    let mut session = Session::new();
    session.on_resize(width, height);
    session
}

fn picture() -> Image {
    Image::new(2, 2, vec![Pixel::new(1, 2, 3); 4]).unwrap()
}

#[test]
fn new_session_has_nothing() {
    let session = Session::new();
    assert_eq!(session.size(), (0, 0));
    assert_eq!(session.active(), None);
    assert!(!session.selecting());
    assert!(session.image().is_none());
    assert_eq!(session.render_order(), None);
    assert_eq!(DENSITY, 2);
}

#[test]
fn first_resize_renders_without_rescaling() {
    let mut session = Session::new();
    let reaction = session.on_resize(800, 400);
    assert_eq!(
        reaction,
        Reaction {
            reset: None,
            view: ViewChange::Keep,
            render: order(1600, 800, false),
            redraw: true
        }
    );
    assert_eq!(session.size(), (800, 400));
}

#[test]
fn resize_rescales_the_viewport() {
    let mut session = sized(800, 400);
    let reaction = session.on_resize(1600, 800);
    assert_eq!(
        reaction,
        Reaction {
            reset: None,
            view: ViewChange::Rescale {
                old_width: 800,
                old_height: 400,
                new_width: 1600,
                new_height: 800
            },
            render: order(3200, 1600, false),
            redraw: true
        }
    );
    assert_eq!(session.size(), (1600, 800));
    // Carried out on a viewport 3.5 wide and 2.0 high at (-2.5, -1.0).
    let (x, y, mut width, mut height) = (-2.5f64, -1.0f64, 3.5f64, 2.0f64);
    if let ViewChange::Rescale { old_width, old_height, new_width, new_height } = reaction.view {
        width *= new_width as f64 / old_width as f64;
        height *= new_height as f64 / old_height as f64;
    }
    assert_eq!((x, y, width, height), (-2.5, -1.0, 7.0, 4.0));
}

#[test]
fn resize_to_the_same_size_does_nothing() {
    let mut session = sized(800, 400);
    assert_eq!(session.on_resize(800, 400), NOTHING);
    assert_eq!(session.size(), (800, 400));
}

#[test]
fn resize_through_zero_does_not_rescale() {
    let mut session = sized(800, 400);
    let reaction = session.on_resize(0, 400);
    assert_eq!(
        reaction,
        Reaction { reset: None, view: ViewChange::Keep, render: None, redraw: true }
    );
    let reaction = session.on_resize(800, 400);
    assert_eq!(reaction.view, ViewChange::Keep);
    assert_eq!(reaction.render, order(1600, 800, false));
    let reaction = session.on_resize(800, 0);
    assert_eq!(reaction.view, ViewChange::Keep);
    assert_eq!(reaction.render, None);
}

#[test]
fn no_render_for_a_display_beyond_memory() {
    let mut session = Session::new();
    let reaction = session.on_resize(usize::MAX, 10);
    assert_eq!(reaction.render, None);
    assert!(reaction.redraw);
    let reaction = session.on_resize(usize::MAX / 2, usize::MAX / 2);
    assert_eq!(reaction.render, None);
}

#[test]
fn smallest_display_renders_two_by_two() {
    let mut session = Session::new();
    let reaction = session.on_resize(1, 1);
    assert_eq!(reaction.render, order(2, 2, false));
}

#[test]
fn zoom_commits_on_end() {
    let mut session = sized(100, 50);
    session.on_render_done(picture());
    let reaction = session.on_drag_begin(Gesture::Zoom);
    assert_eq!(reaction, Reaction { reset: Some(Gesture::Pan), ..NOTHING });
    assert!(session.selecting());
    let reaction = session.on_drag_update(Gesture::Zoom);
    assert_eq!(reaction, Reaction { redraw: true, ..NOTHING });
    assert!(session.image().is_some());
    let reaction = session.on_drag_end(Gesture::Zoom, true);
    assert_eq!(
        reaction,
        Reaction {
            reset: None,
            view: ViewChange::Zoom,
            render: order(200, 100, false),
            redraw: true
        }
    );
    assert!(!session.selecting());
    assert_eq!(session.active(), None);
    assert!(session.image().is_none());
}

#[test]
fn cancelled_zoom_commits_nothing() {
    let mut session = sized(100, 50);
    session.on_render_done(picture());
    session.on_drag_begin(Gesture::Zoom);
    assert_eq!(session.on_drag_cancel(Gesture::Zoom), NOTHING);
    assert!(!session.selecting());
    assert_eq!(session.on_drag_end(Gesture::Zoom, true), NOTHING);
    assert!(session.image().is_some());
}

#[test]
fn key_cancels_the_selection() {
    let mut session = sized(100, 50);
    session.on_drag_begin(Gesture::Zoom);
    let reaction = session.on_key_cancel();
    assert_eq!(reaction, Reaction { reset: Some(Gesture::Zoom), redraw: true, ..NOTHING });
    assert!(!session.selecting());
    assert_eq!(session.on_drag_cancel(Gesture::Zoom), NOTHING);
    assert_eq!(session.on_drag_end(Gesture::Zoom, true), NOTHING);
}

#[test]
fn key_leaves_a_pan_alone() {
    let mut session = sized(100, 50);
    session.on_drag_begin(Gesture::Pan);
    let reaction = session.on_key_cancel();
    assert_eq!(reaction, Reaction { reset: Some(Gesture::Zoom), redraw: true, ..NOTHING });
    assert_eq!(session.active(), Some(Gesture::Pan));
}

#[test]
fn pan_renders_live_and_commits_on_end() {
    let mut session = sized(800, 400);
    session.on_render_done(picture());
    let reaction = session.on_drag_begin(Gesture::Pan);
    assert_eq!(reaction, Reaction { reset: Some(Gesture::Zoom), ..NOTHING });
    let reaction = session.on_drag_update(Gesture::Pan);
    assert_eq!(
        reaction,
        Reaction {
            reset: None,
            view: ViewChange::Keep,
            render: order(1600, 800, true),
            redraw: true
        }
    );
    assert_eq!(session.render_order(), order(1600, 800, true));
    let reaction = session.on_drag_end(Gesture::Pan, true);
    assert_eq!(
        reaction,
        Reaction {
            reset: None,
            view: ViewChange::Pan,
            render: order(1600, 800, false),
            redraw: true
        }
    );
    assert_eq!(session.active(), None);
    assert!(session.image().is_some());
}

#[test]
fn resize_during_a_pan_renders_the_moved_view() {
    let mut session = sized(800, 400);
    session.on_drag_begin(Gesture::Pan);
    let reaction = session.on_resize(400, 200);
    assert_eq!(reaction.render, order(800, 400, true));
}

#[test]
fn beginning_one_gesture_abandons_the_other() {
    let mut session = sized(100, 50);
    session.on_drag_begin(Gesture::Zoom);
    let reaction = session.on_drag_begin(Gesture::Pan);
    assert_eq!(reaction.reset, Some(Gesture::Zoom));
    assert_eq!(session.active(), Some(Gesture::Pan));
    // The abandoned selection reports its cancellation and its end.
    assert_eq!(session.on_drag_cancel(Gesture::Zoom), NOTHING);
    assert_eq!(session.on_drag_end(Gesture::Zoom, true), NOTHING);
    assert_eq!(session.on_drag_update(Gesture::Zoom), NOTHING);
    assert_eq!(session.active(), Some(Gesture::Pan));
    let reaction = session.on_drag_begin(Gesture::Zoom);
    assert_eq!(reaction.reset, Some(Gesture::Pan));
    assert_eq!(session.on_drag_end(Gesture::Pan, true), NOTHING);
    assert_eq!(session.active(), Some(Gesture::Zoom));
}

#[test]
fn events_without_a_gesture_do_nothing() {
    let mut session = sized(100, 50);
    for gesture in [Gesture::Zoom, Gesture::Pan] {
        assert_eq!(session.on_drag_update(gesture), NOTHING);
        assert_eq!(session.on_drag_end(gesture, true), NOTHING);
        assert_eq!(session.on_drag_end(gesture, false), NOTHING);
        assert_eq!(session.on_drag_cancel(gesture), NOTHING);
    }
    assert_eq!(session.size(), (100, 50));
}

#[test]
fn delivered_image_goes_on_display() {
    let mut session = sized(100, 50);
    let reaction = session.on_render_done(picture());
    assert_eq!(reaction, Reaction { redraw: true, ..NOTHING });
    let shown = session.image().unwrap();
    assert_eq!((shown.width(), shown.height()), (2, 2));
    assert_eq!(shown.to_bytes(), vec![255, 1, 2, 3, 255, 1, 2, 3, 255, 1, 2, 3, 255, 1, 2, 3]);
}

#[test]
fn zoom_without_a_display_renders_nothing() {
    let mut session = Session::new();
    session.on_drag_begin(Gesture::Zoom);
    let reaction = session.on_drag_end(Gesture::Zoom, true);
    assert_eq!(
        reaction,
        Reaction { reset: None, view: ViewChange::Zoom, render: None, redraw: true }
    );
}

#[test]
fn zoom_without_extent_is_dropped() {
    let mut session = sized(100, 50);
    session.on_render_done(picture());
    session.on_drag_begin(Gesture::Zoom);
    let reaction = session.on_drag_end(Gesture::Zoom, false);
    assert_eq!(reaction, Reaction { redraw: true, ..NOTHING });
    assert_eq!(session.active(), None);
    assert!(session.image().is_some());
}

#[test]
fn pan_without_extent_is_dropped() {
    let mut session = sized(100, 50);
    session.on_drag_begin(Gesture::Pan);
    assert_eq!(session.on_drag_end(Gesture::Pan, false), NOTHING);
    assert_eq!(session.active(), None);
}
