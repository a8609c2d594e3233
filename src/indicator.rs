//! The busy indicator drawn on the terminal's current line.
//!
//! The line belongs either to the indicator or to the caller's output, never to
//! both: `pause` takes the line back, erasing a drawn frame whole, and every
//! frame is drawn whole from the start of a cleared line. The text returned by
//! each method is what is to be written to the terminal, under the same lock
//! that guards the indicator, so that no write falls between two parts of a frame.
use vstd::prelude::*;
use vstd::string::*;

verus! {

/// Returns to the start of the line and clears it.
pub open spec fn erase() -> Seq<char> {
    "\r\x1b[2K"@
}

pub open spec fn glyph(tick: nat) -> char {
    if tick % 4 == 0 {
        '|'
    } else if tick % 4 == 1 {
        '/'
    } else if tick % 4 == 2 {
        '-'
    } else {
        '\\'
    }
}

/// The text of one frame.
pub open spec fn frame_text(tick: nat, label: Seq<char>) -> Seq<char> {
    erase() + seq![glyph(tick)] + seq![' '] + label
}

pub struct Indicator {
    label: String,
    tick: usize,
    active: bool,
    drawn: bool,
    stopped: bool,
}

impl Indicator {
    pub closed spec fn label(&self) -> Seq<char> {
        self.label@
    }

    pub closed spec fn tick(&self) -> nat {
        self.tick as nat
    }

    /// The indicator owns the line and draws on each tick.
    pub closed spec fn active(&self) -> bool {
        self.active
    }

    /// A frame stands on the line.
    pub closed spec fn drawn(&self) -> bool {
        self.drawn
    }

    pub closed spec fn stopped(&self) -> bool {
        self.stopped
    }

    /// The indicator never owns the line once stopped, and stands on it only while it owns it.
    pub closed spec fn wf(&self) -> bool {
        &&& self.tick < 4
        &&& (self.stopped ==> !self.active)
        &&& (self.drawn ==> self.active)
    }

    /// A running indicator with the given label; nothing is drawn before the first tick.
    pub fn new(label: String) -> (r: Indicator)
        ensures
            r.wf(),
            r.label() == label@,
            r.tick() == 0,
            r.active(),
            !r.drawn(),
            !r.stopped(),
    {
        Indicator { label, tick: 0, active: true, drawn: false, stopped: false }
    }

    /// One tick: the next frame while the indicator owns the line, nothing otherwise.
    pub fn frame(&mut self) -> (out: String)
        requires
            old(self).wf(),
        ensures
            final(self).wf(),
            final(self).label() == old(self).label(),
            final(self).stopped() == old(self).stopped(),
            final(self).active() == old(self).active(),
            old(self).active() ==> {
                &&& out@ == frame_text(old(self).tick(), old(self).label())
                &&& final(self).drawn()
                &&& final(self).tick() == (old(self).tick() + 1) % 4
            },
            !old(self).active() ==> out@ == Seq::<char>::empty() && *final(self) == *old(self),
    {
        if !self.active {
            return String::new();
        }
        let g = if self.tick == 0 {
            "|"
        } else if self.tick == 1 {
            "/"
        } else if self.tick == 2 {
            "-"
        } else {
            "\\"
        };
        proof {
            reveal_strlit("|");
            reveal_strlit("/");
            reveal_strlit("-");
            reveal_strlit("\\");
            reveal_strlit(" ");
            assert(g@ =~= seq![glyph(self.tick as nat)]);
        }
        let mut out = String::from_str("\r\x1b[2K");
        out.append(g);
        out.append(" ");
        out.append(self.label.as_str());
        self.drawn = true;
        self.tick = if self.tick == 3 {
            0
        } else {
            self.tick + 1
        };
        out
    }

    /// Takes the line back for the caller's output: a drawn frame is erased
    /// whole, and nothing is drawn until `resume`.
    pub fn pause(&mut self) -> (out: String)
        requires
            old(self).wf(),
        ensures
            final(self).wf(),
            !final(self).active(),
            !final(self).drawn(),
            final(self).label() == old(self).label(),
            final(self).tick() == old(self).tick(),
            final(self).stopped() == old(self).stopped(),
            old(self).drawn() ==> out@ == erase(),
            !old(self).drawn() ==> out@ == Seq::<char>::empty(),
    {
        self.active = false;
        if self.drawn {
            self.drawn = false;
            String::from_str("\r\x1b[2K")
        } else {
            String::new()
        }
    }

    /// Hands the line back to the indicator, with a new label unless the one
    /// given is empty; the next frame starts from a cleared line. A stopped
    /// indicator stays stopped.
    pub fn resume(&mut self, label: String) -> (out: String)
        requires
            old(self).wf(),
        ensures
            final(self).wf(),
            out@ == Seq::<char>::empty(),
            final(self).drawn() == old(self).drawn(),
            final(self).active() == !old(self).stopped(),
            final(self).stopped() == old(self).stopped(),
            final(self).tick() == old(self).tick(),
            label@.len() == 0 ==> final(self).label() == old(self).label(),
            label@.len() > 0 ==> final(self).label() == label@,
    {
        if label.as_str().is_empty() {
        } else {
            self.label = label;
        }
        self.active = !self.stopped;
        String::new()
    }

    /// Whether `stop` has been called; a stopped indicator never draws again.
    pub fn is_stopped(&self) -> (r: bool)
        ensures
            r == self.stopped(),
    {
        self.stopped
    }

    /// Stops for good and erases a drawn frame; stopping again does nothing.
    pub fn stop(&mut self) -> (out: String)
        requires
            old(self).wf(),
        ensures
            final(self).wf(),
            final(self).stopped(),
            !final(self).active(),
            !final(self).drawn(),
            final(self).label() == old(self).label(),
            final(self).tick() == old(self).tick(),
            old(self).drawn() ==> out@ == erase(),
            !old(self).drawn() ==> out@ == Seq::<char>::empty(),
    {
        let out = self.pause();
        self.stopped = true;
        out
    }
}

/// Pausing and at once resuming writes at most one erasure, which clears the
/// line whole, and the indicator's next frame is then drawn whole, from the
/// start of a cleared line, with the label it resumed with: no part of one
/// frame is left for another to overwrite.
pub proof fn lemma_pause_resume_whole_frames(
    before: Indicator,
    paused: Indicator,
    resumed: Indicator,
    label: Seq<char>,
    erased: Seq<char>,
)
    requires
        before.wf(),
        !before.stopped(),
        paused.wf(),
        !paused.active() && !paused.drawn(),
        paused.label() == before.label() && paused.tick() == before.tick(),
        paused.stopped() == before.stopped(),
        before.drawn() ==> erased == erase(),
        !before.drawn() ==> erased == Seq::<char>::empty(),
        resumed.wf(),
        resumed.active() == !paused.stopped(),
        resumed.tick() == paused.tick(),
        label.len() == 0 ==> resumed.label() == paused.label(),
        label.len() > 0 ==> resumed.label() == label,
    ensures
        erased == Seq::<char>::empty() || erased == erase(),
        resumed.active(),
        frame_text(resumed.tick(), resumed.label()).subrange(0, erase().len() as int) == erase(),
        label.len() > 0 ==> frame_text(resumed.tick(), resumed.label()) == erase() + seq![
            glyph(before.tick()),
            ' ',
        ] + label,
{
    let f = frame_text(resumed.tick(), resumed.label());
    assert(f.subrange(0, erase().len() as int) =~= erase());
    if label.len() > 0 {
        assert(f =~= erase() + seq![glyph(before.tick()), ' '] + label);
    }
}

} // verus!
