//! The animation state and the steps of one frame.
//!
//! A frame applies the skip rule, renders the text with the character under
//! the cursor in its capital form, advances the cursor if the interval has
//! passed, and checks for the cancel key. The caller draws the glyphs, reads
//! the clock, polls the keyboard and waits for the next display refresh.

use vstd::prelude::*;
use crate::cursor::{
    advance, lemma_next_index_in_range, lemma_next_index_wraps, next_index, skip, skip_target,
};
use crate::input::{handle_key_events, outcome_of, FrameOutcome, Key};
use crate::letters::alphabetic;
use crate::render::{render, rendered, Glyph, Rgba, Style};
use crate::text::{lemma_normalize_idempotent, normalize, normalized, to_chars};
use crate::timer::{advance_due, is_due};

verus! {

/// The animation as a mathematical value.
pub struct AnimationView {
    /// The text, lowercased.
    pub text: Seq<char>,
    /// The index of the active character.
    pub cursor: nat,
    /// When the cursor last advanced on the timer.
    pub last_advance: nat,
    /// How long the cursor rests before the timer moves it.
    pub interval: nat,
}

impl AnimationView {
    /// The text is not empty and in lower case, and the cursor points into
    /// it.
    pub open spec fn wf(self) -> bool {
        &&& self.text.len() > 0
        &&& self.cursor < self.text.len()
        &&& normalized(self.text) == self.text
    }

    /// The state a run starts in.
    pub open spec fn initial(text: Seq<char>, interval: nat, now: nat) -> AnimationView {
        AnimationView { text: normalized(text), cursor: 0, last_advance: now, interval }
    }

    /// The character under the cursor.
    pub open spec fn active(self) -> char {
        self.text[self.cursor as int]
    }

    /// The state after the skip rule: a cursor that stands on anything but
    /// a letter moves one place forward.
    pub open spec fn skipped(self) -> AnimationView {
        AnimationView {
            cursor: skip_target(
                self.cursor as int,
                self.text.len() as int,
                alphabetic(self.active()),
            ) as nat,
            ..self
        }
    }

    /// The glyphs drawn for this state.
    pub open spec fn glyphs(self, style: Style) -> Seq<Glyph> {
        rendered(self.text, self.cursor as int, style)
    }

    /// The state after the timed advance at time `now`: where the interval
    /// has passed, the cursor moves one place forward and `now` is recorded;
    /// otherwise nothing changes.
    pub open spec fn ticked(self, now: nat) -> AnimationView {
        if advance_due(self.last_advance as int, self.interval as int, now as int) {
            AnimationView {
                cursor: next_index(self.cursor as int, self.text.len() as int) as nat,
                last_advance: now,
                ..self
            }
        } else {
            self
        }
    }

    /// The state after a whole frame at time `now`.
    pub open spec fn after_frame(self, now: nat) -> AnimationView {
        self.skipped().ticked(now)
    }
}

/// The skip rule and the timed advance keep a state well formed, and change
/// neither the text nor the interval.
pub proof fn lemma_steps_keep_wf(v: AnimationView, now: nat)
    requires
        v.wf(),
    ensures
        v.skipped().wf(),
        v.ticked(now).wf(),
        v.after_frame(now).wf(),
        v.after_frame(now).text == v.text,
        v.after_frame(now).interval == v.interval,
{
    lemma_next_index_in_range(v.cursor as int, v.text.len() as int);
    lemma_next_index_in_range(v.skipped().cursor as int, v.text.len() as int);
}

/// With a clock that does not run backwards, the time of the last advance
/// never decreases.
pub proof fn lemma_last_advance_monotonic(v: AnimationView, now: nat)
    requires
        v.wf(),
        now >= v.last_advance,
    ensures
        v.after_frame(now).last_advance >= v.last_advance,
{
}

/// A cursor that starts a frame on a character that is no letter has moved
/// on before the frame is drawn, whether or not the timer is due.
pub proof fn lemma_skip_precedes_timer(v: AnimationView, style: Style, now: nat)
    requires
        v.wf(),
        !alphabetic(v.active()),
    ensures
        v.skipped().cursor == next_index(v.cursor as int, v.text.len() as int),
        v.skipped().glyphs(style) == rendered(
            v.text,
            next_index(v.cursor as int, v.text.len() as int),
            style,
        ),
        !advance_due(v.last_advance as int, v.interval as int, now as int) ==> v.after_frame(
            now,
        ).cursor == next_index(v.cursor as int, v.text.len() as int),
{
    lemma_next_index_in_range(v.cursor as int, v.text.len() as int);
}

/// From the last character both the skip rule and the timed advance lead
/// back to the first.
pub proof fn lemma_cursor_wraps(v: AnimationView, now: nat)
    requires
        v.wf(),
        v.cursor == v.text.len() - 1,
    ensures
        !alphabetic(v.active()) ==> v.skipped().cursor == 0,
        advance_due(v.last_advance as int, v.interval as int, now as int) ==> v.ticked(now).cursor
            == 0,
{
    lemma_next_index_wraps(v.text.len() as int);
}

/// When exactly the interval has passed since the last advance, the cursor
/// advances and the time is recorded.
pub proof fn lemma_advance_at_boundary(v: AnimationView)
    requires
        v.wf(),
    ensures
        v.ticked(v.last_advance + v.interval).cursor == next_index(
            v.cursor as int,
            v.text.len() as int,
        ),
        v.ticked(v.last_advance + v.interval).last_advance == v.last_advance + v.interval,
{
    lemma_next_index_in_range(v.cursor as int, v.text.len() as int);
}

/// What one frame hands to the caller.
#[derive(Debug)]
pub struct Frame {
    /// The colour to clear the surface to before anything is drawn.
    pub background: Rgba,
    /// The glyphs to draw, left to right.
    pub glyphs: Vec<Glyph>,
    /// Whether the loop goes on.
    pub outcome: FrameOutcome,
}

/// The state of a running animation.
#[derive(Debug)]
pub struct AnimationState {
    text: Vec<char>,
    cursor: usize,
    last_advance: u128,
    interval: u128,
}

impl View for AnimationState {
    type V = AnimationView;

    closed spec fn view(&self) -> AnimationView {
        AnimationView {
            text: self.text@,
            cursor: self.cursor as nat,
            last_advance: self.last_advance as nat,
            interval: self.interval as nat,
        }
    }
}

impl AnimationState {
    #[verifier::type_invariant]
    spec fn inv(self) -> bool {
        self@.wf()
    }

    /// Starts an animation of `text` at time `now`: the text is lowercased,
    /// the cursor stands on the first character, and the timer runs from
    /// `now`.
    pub fn new(text: &str, interval: u128, now: u128) -> (state: AnimationState)
        requires
            text@.len() > 0,
        ensures
            state@ == AnimationView::initial(text@, interval as nat, now as nat),
            state@.wf(),
    {
        let lowered = normalize(text);
        let chars = to_chars(lowered.as_str());
        proof {
            lemma_normalize_idempotent(text@);
        }
        AnimationState { text: chars, cursor: 0, last_advance: now, interval }
    }

    /// The text, lowercased.
    pub fn text(&self) -> (text: &Vec<char>)
        ensures
            text@ == self@.text,
            self@.wf(),
    {
        proof {
            use_type_invariant(self);
        }
        &self.text
    }

    /// The index of the active character.
    pub fn cursor(&self) -> (cursor: usize)
        ensures
            cursor == self@.cursor,
            self@.wf(),
    {
        proof {
            use_type_invariant(self);
        }
        self.cursor
    }

    /// When the cursor last advanced on the timer.
    pub fn last_advance(&self) -> (t: u128)
        ensures
            t == self@.last_advance,
    {
        self.last_advance
    }

    /// How long the cursor rests before the timer moves it.
    pub fn interval(&self) -> (t: u128)
        ensures
            t == self@.interval,
    {
        self.interval
    }

    /// Applies the skip rule: if the character under the cursor is no
    /// letter, the cursor moves one place forward.
    pub fn skip_non_alphabetic(&mut self)
        ensures
            final(self)@ == old(self)@.skipped(),
            final(self)@.wf(),
    {
        proof {
            use_type_invariant(&*self);
        }
        let on_letter = self.text[self.cursor].is_alphabetic();
        self.cursor = skip(self.cursor, self.text.len(), on_letter);
    }

    /// The glyphs of the current state: the text with the character under
    /// the cursor in its capital form.
    pub fn render(&self, style: &Style) -> (glyphs: Vec<Glyph>)
        ensures
            glyphs@ == self@.glyphs(*style),
            glyphs@.len() == self@.text.len(),
    {
        render(&self.text, self.cursor, style)
    }

    /// Advances the cursor if at least the interval has passed since the
    /// last advance, and records `now` as the time of the advance.
    pub fn timed_advance(&mut self, now: u128)
        ensures
            final(self)@ == old(self)@.ticked(now as nat),
            final(self)@.wf(),
    {
        proof {
            use_type_invariant(&*self);
        }
        if is_due(self.last_advance, self.interval, now) {
            self.last_advance = now;
            self.cursor = advance(self.cursor, self.text.len());
        }
    }

    /// Runs one frame: the skip rule, the rendering, the timed advance at
    /// time `now`, and the check of the key polled in this frame. The text
    /// is rendered after the skip rule and before the timed advance.
    pub fn run_frame(&mut self, style: &Style, now: u128, key: Option<Key>) -> (frame: Frame)
        ensures
            frame.background == style.background,
            frame.glyphs@ == old(self)@.skipped().glyphs(*style),
            frame.outcome == outcome_of(key),
            final(self)@ == old(self)@.after_frame(now as nat),
            final(self)@.wf(),
    {
        self.skip_non_alphabetic();
        let glyphs = self.render(style);
        self.timed_advance(now);
        let outcome = handle_key_events(key);
        Frame { background: style.background, glyphs, outcome }
    }
}

} // verus!
