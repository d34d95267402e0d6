//! What a window is opened with, and what the render loop does with each
//! event that the window system hands it.

use vstd::prelude::*;

verus! {

/// Something that holds resources which have to be given back by hand.
pub trait Disposable {
    fn dispose(&mut self);
}

/// The title and the logical size of a window, as mathematical values.
pub struct WindowDetailsView {
    pub title: Seq<char>,
    pub width: int,
    pub height: int,
}

/// The title and the logical size that a window is opened with.
pub struct WindowDetails {
    title: String,
    width: i32,
    height: i32,
}

impl View for WindowDetails {
    type V = WindowDetailsView;

    closed spec fn view(&self) -> WindowDetailsView {
        WindowDetailsView {
            title: self.title@,
            width: self.width as int,
            height: self.height as int,
        }
    }
}

#[allow(non_snake_case)]
impl WindowDetails {
    pub fn new(titl: &str, width: i32, height: i32) -> (details: Self)
        ensures
            details@ == (WindowDetailsView {
                title: titl@,
                width: width as int,
                height: height as int,
            }),
    {
        WindowDetails { title: titl.to_owned(), width, height }
    }

    pub fn getTitle(&self) -> (title: &str)
        ensures
            title@ == self@.title,
    {
        self.title.as_str()
    }

    pub fn getWidth(&self) -> (width: i32)
        ensures
            width == self@.width,
    {
        self.width
    }

    pub fn getHeight(&self) -> (height: i32)
        ensures
            height == self@.height,
    {
        self.height
    }
}

/// What the window system can report to the render loop.
#[derive(Clone, Copy, Debug, PartialEq, Eq, Structural)]
pub enum LoopEvent {
    /// The loop is being torn down.
    LoopDestroyed,
    /// The user asked for the window to be closed.
    CloseRequested,
    /// The window now has this physical size.
    Resized { width: u32, height: u32 },
    /// Anything else.
    Other,
}

/// What the render loop does in answer to one event, in this order: give
/// the scene's resources back, resize the drawing surface and the scene,
/// then clear, draw and advance one frame. `exit` asks the loop to stop
/// once the step is done.
#[derive(Clone, Copy, Debug)]
pub struct LoopStep {
    pub dispose: bool,
    pub exit: bool,
    pub resize: Option<(i32, i32)>,
    pub frame: bool,
}

/// A physical extent as the signed number that the drawing surface takes:
/// the same bits, so an extent of 2^31 or more comes out negative.
pub open spec fn signed_extent(extent: u32) -> int {
    if extent < 0x8000_0000 {
        extent as int
    } else {
        extent - 0x1_0000_0000
    }
}

/// The step that answers `event`.
pub open spec fn step_for(event: LoopEvent) -> LoopStep {
    match event {
        LoopEvent::LoopDestroyed => LoopStep {
            dispose: false,
            exit: false,
            resize: None,
            frame: false,
        },
        LoopEvent::CloseRequested => LoopStep {
            dispose: true,
            exit: true,
            resize: None,
            frame: true,
        },
        LoopEvent::Resized { width, height } => LoopStep {
            dispose: false,
            exit: false,
            resize: Some((signed_extent(width) as i32, signed_extent(height) as i32)),
            frame: true,
        },
        LoopEvent::Other => LoopStep { dispose: false, exit: false, resize: None, frame: true },
    }
}

/// Decides what the render loop does with `event`. A torn-down loop does
/// nothing more; every other event is followed by a frame, a close request
/// also gives the scene's resources back and stops the loop, and a new size
/// is passed on before the frame is drawn.
pub fn next_step(event: LoopEvent) -> (step: LoopStep)
    ensures
        step == step_for(event),
{
    match event {
        LoopEvent::LoopDestroyed => LoopStep {
            dispose: false,
            exit: false,
            resize: None,
            frame: false,
        },
        LoopEvent::CloseRequested => LoopStep {
            dispose: true,
            exit: true,
            resize: None,
            frame: true,
        },
        LoopEvent::Resized { width, height } => {
            let w: i32 = #[verifier::truncate] (width as i32);
            let h: i32 = #[verifier::truncate] (height as i32);
            assert(w == signed_extent(width)) by (bit_vector)
                requires
                    w == #[verifier::truncate] (width as i32),
            ;
            assert(h == signed_extent(height)) by (bit_vector)
                requires
                    h == #[verifier::truncate] (height as i32),
            ;
            LoopStep { dispose: false, exit: false, resize: Some((w, h)), frame: true }
        },
        LoopEvent::Other => LoopStep { dispose: false, exit: false, resize: None, frame: true },
    }
}

} // verus!
