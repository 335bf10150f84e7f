//! The large preview of the brush that is being edited.
//!
//! Rendering is put off until the edits pause. Pictures are told by numbers.

use vstd::prelude::*;

verus! {

/// The preview.
#[derive(Clone, Copy, Debug, PartialEq, Eq, Structural)]
pub struct LivePreview {
    /// The picture that the brush was saved with; outside, that there is a brush.
    pub brush: Option<Option<u64>>,
    /// The last picture that was rendered.
    pub rendered: Option<u64>,
    /// The pause is running.
    pub pausing: bool,
}

/// What showing a brush asks for.
#[derive(Clone, Copy, Debug, PartialEq, Eq, Structural)]
pub struct PreviewRequest {
    pub cancel_pause: bool,
    pub start_pause: bool,
}

impl LivePreview {
    /// A pause runs only for a brush, and without a brush there is no picture.
    pub open spec fn inv(self) -> bool {
        self.brush is None ==> !self.pausing && self.rendered is None
    }

    /// The preview after a brush was set, or none.
    pub open spec fn with(self, brush: Option<Option<u64>>) -> LivePreview {
        LivePreview {
            brush,
            rendered: if brush is None {
                None
            } else {
                self.rendered
            },
            pausing: brush is Some,
        }
    }

    /// The preview after the pause, given what was rendered.
    pub open spec fn after_pause(self, picture: Option<u64>) -> LivePreview {
        LivePreview {
            rendered: if self.brush is Some && picture is Some {
                picture
            } else {
                self.rendered
            },
            pausing: false,
            ..self
        }
    }

    /// No brush.
    pub fn new() -> (p: LivePreview)
        ensures
            p == (LivePreview { brush: None, rendered: None, pausing: false }),
            p.inv(),
    {
        LivePreview { brush: None, rendered: None, pausing: false }
    }

    /// A brush was set, or none. A new edit starts the pause over.
    pub fn set_brush(&mut self, brush: Option<Option<u64>>) -> (r: PreviewRequest)
        ensures
            *final(self) == old(self).with(brush),
            final(self).inv(),
            r == (PreviewRequest { cancel_pause: old(self).pausing, start_pause: brush is Some }),
    {
        let cancel_pause = self.pausing;
        self.brush = brush;
        let start_pause = brush.is_some();
        if !start_pause {
            self.rendered = None;
        }
        self.pausing = start_pause;
        PreviewRequest { cancel_pause, start_pause }
    }

    /// The pause is over: whether the brush is to be rendered now.
    pub fn wants_render(&self) -> (r: bool)
        ensures
            r == self.brush is Some,
    {
        self.brush.is_some()
    }

    /// The pause is over and the brush was rendered, if that succeeded. A failure
    /// keeps the picture that is there.
    pub fn pause_over(&mut self, picture: Option<u64>)
        ensures
            *final(self) == old(self).after_pause(picture),
            old(self).inv() ==> final(self).inv(),
    {
        self.pausing = false;
        if self.brush.is_some() && picture.is_some() {
            self.rendered = picture;
        }
    }

    /// The picture that is shown: the rendered one, else the one that the brush
    /// was saved with.
    pub fn picture(&self) -> (p: Option<u64>)
        ensures
            p == (match self.rendered {
                Some(r) => Some(r),
                None => match self.brush {
                    Some(saved) => saved,
                    None => None,
                },
            }),
    {
        match self.rendered {
            Some(r) => Some(r),
            None => match self.brush {
                Some(saved) => saved,
                None => None,
            },
        }
    }
}

/// A burst of edits renders once, the brush as the last of them left it.
pub proof fn law_a_burst_renders_once(
    p: LivePreview,
    first: Option<u64>,
    last: Option<u64>,
    picture: Option<u64>,
)
    ensures
        p.with(Some(first)).with(Some(last)) == p.with(Some(last)),
        !p.with(Some(first)).with(Some(last)).after_pause(picture).pausing,
        p.with(Some(first)).with(Some(last)).after_pause(picture).brush == Some(last),
{
}

/// Setting a brush starts the pause over, keeping the last picture until there is a new
/// one; setting none takes the pause and the picture away.
pub proof fn law_setting_a_brush(p: &mut LivePreview, brush: Option<Option<u64>>, r: PreviewRequest)
    requires
        call_ensures(LivePreview::set_brush, (p, brush), r),
    ensures
        final(p).brush == brush,
        r.cancel_pause <==> old(p).pausing,
        r.start_pause <==> brush is Some,
        final(p).pausing <==> brush is Some,
        brush is Some ==> final(p).rendered == old(p).rendered,
        brush is None ==> final(p).rendered is None,
{
}

/// After the pause what was rendered of a brush is shown, and a rendering that failed
/// leaves what was shown. Before anything was rendered the picture that the brush was
/// saved with shows.
pub proof fn law_what_is_shown_after_the_pause(
    p: &mut LivePreview,
    wants: bool,
    rendered: Option<u64>,
    shown: Option<u64>,
)
    requires
        call_ensures(LivePreview::wants_render, (&*old(p),), wants),
        call_ensures(LivePreview::pause_over, (p, rendered), ()),
        call_ensures(LivePreview::picture, (&*final(p),), shown),
    ensures
        wants <==> old(p).brush is Some,
        !final(p).pausing,
        final(p).brush == old(p).brush,
        wants && rendered is Some ==> shown == rendered,
        !wants || rendered is None ==> final(p).rendered == old(p).rendered,
        final(p).rendered is None && wants ==> shown == old(p).brush->0,
        final(p).rendered is None && !wants ==> shown is None,
{
}

} // verus!
