//! The export preview: encoding it after a pause, showing only the latest, and
//! the export itself.

use vstd::prelude::*;

verus! {

/// The preview in the making.
///
/// Every change of the settings starts a pause; when it has passed without
/// another change, a thread encodes the preview and a poller waits for it. The
/// loading card shows from the first change until a result is there.
#[derive(Clone, Copy, Debug, PartialEq, Eq, Structural)]
pub struct Preview {
    /// Counts the changes.
    pub generation: u64,
    /// The pause is running.
    pub pausing: bool,
    /// The poller waits for the encode of this generation.
    pub polling: Option<u64>,
    /// The loading card shows and its progress timer runs.
    pub loading: bool,
}

/// What a change asks for.
#[derive(Clone, Copy, Debug, PartialEq, Eq, Structural)]
pub struct PreviewChange {
    pub cancel_pause: bool,
    pub cancel_poller: bool,
    /// The progress timer is not running yet.
    pub start_progress: bool,
    /// The generation to encode once the pause is over.
    pub generation: u64,
}

/// How an encode ended.
#[derive(Clone, Copy, Debug, PartialEq, Eq, Structural)]
pub enum EncodeEnd {
    Pixels,
    /// The thread is gone without a result.
    Lost,
}

/// What the end of an encode asks for.
#[derive(Clone, Copy, Debug, PartialEq, Eq, Structural)]
pub struct PreviewArrival {
    /// Show the pixels.
    pub show: bool,
    /// Take the loading card down.
    pub done: bool,
}

impl Preview {
    /// A change comes within the pause or while a poller waits, never both; the
    /// poller waits for the latest change; the card shows as long as either runs.
    pub open spec fn inv(self) -> bool {
        &&& !(self.pausing && self.polling is Some)
        &&& (self.polling matches Some(g) ==> g == self.generation)
        &&& self.loading == (self.pausing || self.polling is Some)
    }

    /// The preview after a change.
    pub open spec fn changed(self) -> Preview {
        Preview {
            generation: self.generation.wrapping_add(1),
            pausing: true,
            polling: None,
            loading: true,
        }
    }

    /// The preview once the pause is over.
    pub open spec fn paused(self, generation: u64) -> Preview {
        Preview { pausing: false, polling: Some(generation), ..self }
    }

    /// The preview once an encode has ended.
    pub open spec fn ended(self, generation: u64) -> Preview {
        Preview {
            polling: None,
            loading: self.loading && self.generation != generation,
            ..self
        }
    }

    /// No preview yet.
    pub fn new() -> (p: Preview)
        ensures
            p == (Preview { generation: 0, pausing: false, polling: None, loading: false }),
            p.inv(),
    {
        Preview { generation: 0, pausing: false, polling: None, loading: false }
    }

    /// The settings changed.
    pub fn change(&mut self) -> (c: PreviewChange)
        ensures
            *final(self) == old(self).changed(),
            final(self).inv(),
            c == (PreviewChange {
                cancel_pause: old(self).pausing,
                cancel_poller: old(self).polling is Some,
                start_progress: !old(self).loading,
                generation: old(self).generation.wrapping_add(1),
            }),
    {
        let c = PreviewChange {
            cancel_pause: self.pausing,
            cancel_poller: self.polling.is_some(),
            start_progress: !self.loading,
            generation: self.generation.wrapping_add(1),
        };
        self.generation = c.generation;
        self.pausing = true;
        self.polling = None;
        self.loading = true;
        c
    }

    /// The pause after the change of this generation is over: it is encoded now.
    pub fn pause_over(&mut self, generation: u64)
        ensures
            *final(self) == old(self).paused(generation),
            old(self).inv() && old(self).pausing && generation == old(self).generation
                ==> final(self).inv(),
    {
        self.pausing = false;
        self.polling = Some(generation);
    }

    /// The encode of a generation has ended. One that is not the latest changes
    /// nothing on the screen.
    pub fn encode_ended(&mut self, generation: u64, end: EncodeEnd) -> (a: PreviewArrival)
        ensures
            *final(self) == old(self).ended(generation),
            a.done == (old(self).generation == generation),
            a.show == (a.done && end == EncodeEnd::Pixels),
            old(self).inv() && old(self).polling == Some(generation) ==> final(self).inv() && a.done,
    {
        self.polling = None;
        let current = self.generation == generation;
        if current {
            self.loading = false;
        }
        PreviewArrival { show: current && end == EncodeEnd::Pixels, done: current }
    }
}

/// Changes that come before the pause is over are encoded once, as the last of
/// them left the settings: after any number of them one pause runs and no poller
/// waits.
pub open spec fn changes(p: Preview, n: nat) -> Preview
    decreases n,
{
    if n == 0 {
        p
    } else {
        changes(p, (n - 1) as nat).changed()
    }
}

/// Any number of changes leaves one pause running and nothing else, and the card
/// up.
pub proof fn law_changes_are_encoded_once(p: Preview, n: nat)
    requires
        n > 0,
    ensures
        changes(p, n).pausing,
        changes(p, n).polling is None,
        changes(p, n).loading,
        changes(p, n).inv(),
    decreases n,
{
    if n > 1 {
        law_changes_are_encoded_once(p, (n - 1) as nat);
    }
}

/// The card comes down once the latest change has been encoded, and an encode
/// that is not of the latest change leaves it up.
pub proof fn law_only_the_latest_encode_is_shown(p: Preview, generation: u64)
    requires
        p.inv(),
        p.loading,
    ensures
        p.ended(generation).loading == (generation != p.generation),
        p.pausing ==> p.paused(p.generation).ended(p.generation) == (Preview {
            pausing: false,
            polling: None,
            loading: false,
            ..p
        }),
{
}

/// The export button.
#[derive(Clone, Copy, Debug, PartialEq, Eq, Structural)]
pub enum ExportButton {
    Ready,
    /// An export is running; the button is dead and the progress bar shows.
    Busy,
    /// The thread is gone without a result: the bar is down, the button stays
    /// dead.
    Stuck,
    /// An export has just succeeded.
    Done,
}

/// How an export ended.
#[derive(Clone, Copy, Debug, PartialEq, Eq, Structural)]
pub enum ExportEnd {
    Written,
    Failed,
    Lost,
}

impl ExportButton {
    /// What the button says.
    pub fn label(self) -> (l: &'static str)
        ensures
            l@ == (match self {
                ExportButton::Ready => "Export"@,
                ExportButton::Busy | ExportButton::Stuck => "Exporting..."@,
                ExportButton::Done => "Exported!"@,
            }),
    {
        match self {
            ExportButton::Ready => "Export",
            ExportButton::Busy | ExportButton::Stuck => "Exporting...",
            ExportButton::Done => "Exported!",
        }
    }

    /// Whether the button can be clicked.
    pub fn sensitive(self) -> (r: bool)
        ensures
            r == (self is Ready || self is Done),
    {
        match self {
            ExportButton::Ready | ExportButton::Done => true,
            _ => false,
        }
    }

    /// Whether the progress bar shows.
    pub fn progress(self) -> (r: bool)
        ensures
            r == (self is Busy),
    {
        match self {
            ExportButton::Busy => true,
            _ => false,
        }
    }

    /// The button after an export has ended.
    pub fn ended(end: ExportEnd) -> (b: ExportButton)
        ensures
            b == (match end {
                ExportEnd::Written => ExportButton::Done,
                ExportEnd::Failed => ExportButton::Ready,
                ExportEnd::Lost => ExportButton::Stuck,
            }),
    {
        match end {
            ExportEnd::Written => ExportButton::Done,
            ExportEnd::Failed => ExportButton::Ready,
            ExportEnd::Lost => ExportButton::Stuck,
        }
    }
}

/// A change takes the place of whatever is under way: the pause or the poller of an
/// earlier one goes, the progress starts unless it shows already, and the change has a
/// number of its own.
pub proof fn law_a_change_starts_over(p: &mut Preview, c: PreviewChange)
    requires
        call_ensures(Preview::change, (p,), c),
    ensures
        c.cancel_pause <==> old(p).pausing,
        c.cancel_poller <==> old(p).polling is Some,
        c.start_progress <==> !old(p).loading,
        c.generation != old(p).generation,
        final(p).generation == c.generation,
        final(p).pausing && final(p).polling is None && final(p).loading,
{
}

/// A change that is encoded without another one in between is shown and takes the card
/// down; one that is lost only takes the card down; one that another change overtook
/// does neither.
pub proof fn law_the_last_change_is_shown(
    a: &mut Preview,
    c: PreviewChange,
    b: &mut Preview,
    d: &mut Preview,
    end: EncodeEnd,
    r: PreviewArrival,
    e: &mut Preview,
    later: PreviewChange,
    f: &mut Preview,
    late: PreviewArrival,
)
    requires
        call_ensures(Preview::change, (a,), c),
        *old(b) == *final(a),
        call_ensures(Preview::pause_over, (b, c.generation), ()),
        *old(d) == *final(b),
        call_ensures(Preview::encode_ended, (d, c.generation, end), r),
        *old(e) == *final(b),
        call_ensures(Preview::change, (e,), later),
        *old(f) == *final(e),
        call_ensures(Preview::encode_ended, (f, c.generation, end), late),
    ensures
        final(b).polling == Some(c.generation) && !final(b).pausing && final(b).loading,
        r.done,
        r.show <==> end is Pixels,
        !final(d).loading && final(d).polling is None && !final(d).pausing,
        !late.done && !late.show,
        final(f).loading && final(f).pausing,
{
}

/// The button can be clicked unless an export runs or was lost, and the bar shows only
/// while one runs. What has ended leaves the button as it ended: it says so where the
/// file was written, is ready again where that failed, and is dead where it was lost.
pub proof fn law_the_export_button(
    b: ExportButton,
    label: &'static str,
    sensitive: bool,
    progress: bool,
    end: ExportEnd,
    after: ExportButton,
)
    requires
        call_ensures(ExportButton::label, (b,), label),
        call_ensures(ExportButton::sensitive, (b,), sensitive),
        call_ensures(ExportButton::progress, (b,), progress),
        call_ensures(ExportButton::ended, (end,), after),
    ensures
        !sensitive <==> b is Busy || b is Stuck,
        progress <==> b is Busy,
        b is Ready ==> label@ == "Export"@,
        b is Done ==> label@ == "Exported!"@,
        !sensitive ==> label@ == "Exporting..."@,
        end is Written <==> after is Done,
        end is Failed <==> after is Ready,
        end is Lost <==> after is Stuck,
{
}

} // verus!
