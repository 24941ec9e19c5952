//! One capture session: the screen snapshot, the selection feature, and
//! what happens once a selection completes.
use vstd::prelude::*;
use crate::capture::{clamped_region, crop, CroppedImage, ScreenBuffer};
use crate::geometry::{Area, Position};
use crate::recognition::{recognize, RecognitionError};
use crate::selection::{
    completion_on_release, state_after_move, state_after_release, AreaSelectionFeature,
    SelectionState,
};

verus! {

/// What the session reacts to once a feature has done its part.
#[derive(Clone, Copy, Debug, PartialEq, Eq, Structural)]
pub enum Event {
    AreaSelectionCompleted(Area),
}

/// The kinds of feature a session can carry.
#[derive(Clone, Copy, Debug, PartialEq, Eq, Structural)]
pub enum Features {
    AreaSelection,
}

/// The state of one feature of a session.
#[derive(Clone, Copy, Debug)]
pub enum Feature {
    Disabled,
    OcrAreaSelection(AreaSelectionFeature),
}

/// How a session ends.
#[derive(Clone, Debug, PartialEq, Eq)]
pub enum SessionOutcome {
    /// The selection covered no pixel of the screen: nothing to recognize.
    NothingSelected,
    /// Recognition succeeded: this text goes to the clipboard.
    CopyToClipboard(String),
    /// Recognition failed: the clipboard is left alone.
    Failed(RecognitionError),
}

/// A session: the screen as it was when the overlay opened, and the state of
/// each feature, one slot per kind.
#[derive(Clone, Debug)]
pub struct ApplicationInstance {
    pub screenshot: ScreenBuffer,
    pub area_selection: Feature,
}

/// The feature state after a pointer move: only an enabled selection moves.
pub open spec fn feature_after_move(f: Feature, p: Position) -> Feature {
    match f {
        Feature::Disabled => Feature::Disabled,
        Feature::OcrAreaSelection(s) => Feature::OcrAreaSelection(
            AreaSelectionFeature { state: state_after_move(s.state, p) },
        ),
    }
}

/// The feature state after a pointer release.
pub open spec fn feature_after_release(f: Feature) -> Feature {
    match f {
        Feature::Disabled => Feature::Disabled,
        Feature::OcrAreaSelection(s) => Feature::OcrAreaSelection(
            AreaSelectionFeature { state: state_after_release(s.state) },
        ),
    }
}

/// How recognition's result ends the session.
pub open spec fn outcome_of(recognized: Result<String, RecognitionError>) -> SessionOutcome {
    match recognized {
        Ok(text) => SessionOutcome::CopyToClipboard(text),
        Err(e) => SessionOutcome::Failed(e),
    }
}

impl ApplicationInstance {
    /// A session on `screenshot` with every feature disabled.
    pub fn new(screenshot: ScreenBuffer) -> (r: Self)
        ensures
            r.screenshot == screenshot,
            r.area_selection is Disabled,
    {
        ApplicationInstance { screenshot, area_selection: Feature::Disabled }
    }

    /// The state of the feature of the given kind.
    pub fn feature(&self, kind: Features) -> (r: &Feature)
        ensures
            kind == Features::AreaSelection ==> *r == self.area_selection,
    {
        match kind {
            Features::AreaSelection => &self.area_selection,
        }
    }

    /// Hands a pointer move to the selection feature. Returns whether the
    /// overlay must be redrawn.
    pub fn pointer_moved(&mut self, p: Position) -> (redraw: bool)
        ensures
            final(self).screenshot == old(self).screenshot,
            final(self).area_selection == feature_after_move(old(self).area_selection, p),
            redraw == match old(self).area_selection {
                Feature::Disabled => false,
                Feature::OcrAreaSelection(s) => !(s.state is Finalized),
            },
    {
        match self.area_selection {
            Feature::Disabled => false,
            Feature::OcrAreaSelection(s) => {
                let mut selection = s;
                let redraw = selection.record_area_selection(p);
                self.area_selection = Feature::OcrAreaSelection(selection);
                redraw
            },
        }
    }

    /// Hands a pointer release to the selection feature. Returns the
    /// completion event when the release ends a drag.
    pub fn pointer_released(&mut self) -> (r: Option<Event>)
        ensures
            final(self).screenshot == old(self).screenshot,
            final(self).area_selection == feature_after_release(old(self).area_selection),
            r == match old(self).area_selection {
                Feature::Disabled => None,
                Feature::OcrAreaSelection(s) => match completion_on_release(s.state) {
                    Some(a) => Some(Event::AreaSelectionCompleted(a)),
                    None => None,
                },
            },
    {
        match self.area_selection {
            Feature::Disabled => None,
            Feature::OcrAreaSelection(s) => {
                let mut selection = s;
                let done = selection.stop_recording_area_selection();
                self.area_selection = Feature::OcrAreaSelection(selection);
                match done {
                    Some(a) => Some(Event::AreaSelectionCompleted(a)),
                    None => None,
                }
            },
        }
    }

    /// The pixels that a completed selection covers on the snapshot, as
    /// RGBA; `None` when it covers none.
    pub fn capture(&self, event: Event) -> (r: Option<CroppedImage>)
        requires
            self.screenshot.wf(),
        ensures
            match event {
                Event::AreaSelectionCompleted(a) => {
                    let reg = clamped_region(
                        a,
                        self.screenshot.width as int,
                        self.screenshot.height as int,
                    );
                    &&& r is None <==> (reg.width == 0 || reg.height == 0)
                    &&& r is Some ==> r->0.wf() && r->0.width == reg.width && r->0.height
                        == reg.height && r->0.pixels@ == crate::capture::cropped_bytes(
                        self.screenshot,
                        reg,
                    )
                },
            },
    {
        match event {
            Event::AreaSelectionCompleted(a) => crop(&self.screenshot, &a),
        }
    }

    /// Reacts to a completed selection: crops the snapshot and runs
    /// recognition on it. An empty selection ends the session with nothing
    /// to do; otherwise the outcome is recognition's, text or failure.
    pub fn dispatch(&self, event: Event) -> (r: SessionOutcome)
        requires
            self.screenshot.wf(),
        ensures
            match event {
                Event::AreaSelectionCompleted(a) => {
                    let reg = clamped_region(
                        a,
                        self.screenshot.width as int,
                        self.screenshot.height as int,
                    );
                    r is NothingSelected <==> (reg.width == 0 || reg.height == 0)
                },
            },
    {
        match self.capture(event) {
            None => SessionOutcome::NothingSelected,
            Some(image) => session_outcome(recognize(&image)),
        }
    }
}

/// Ends a session on recognition's result: text goes to the clipboard, a
/// failure is reported and the clipboard is left alone.
pub fn session_outcome(recognized: Result<String, RecognitionError>) -> (r: SessionOutcome)
    ensures
        r == outcome_of(recognized),
{
    match recognized {
        Ok(text) => SessionOutcome::CopyToClipboard(text),
        Err(e) => SessionOutcome::Failed(e),
    }
}

/// Enables area selection on a session, starting from an empty selection.
pub fn add_area_selection_feature(instance: ApplicationInstance) -> (r: ApplicationInstance)
    ensures
        r.screenshot == instance.screenshot,
        r.area_selection == Feature::OcrAreaSelection(
            AreaSelectionFeature { state: SelectionState::Idle },
        ),
{
    ApplicationInstance {
        screenshot: instance.screenshot,
        area_selection: Feature::OcrAreaSelection(AreaSelectionFeature::new()),
    }
}

} // verus!
