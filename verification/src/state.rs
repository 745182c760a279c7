//! The companion's state and the transitions one frame applies to it.

use crate::geometry::{within, within_radius, Point};
use crate::shape::Rgba;
use vstd::prelude::*;

verus! {

/// How many messages the character cycles through.
pub const MESSAGE_COUNT: usize = 10;

/// How long the speech bubble stays up, in nanoseconds.
pub const BUBBLE_LIFETIME: u64 = 3_000_000_000;

/// The animation clock past which the welcome message goes up, in
/// nanoseconds.
pub const WELCOME_OPENS: u64 = 500_000_000;

/// The animation clock from which on the welcome message no longer goes up,
/// in nanoseconds.
pub const WELCOME_CLOSES: u64 = 600_000_000;

/// How long the drag hint takes to fade out, in nanoseconds.
pub const HINT_LIFETIME: u64 = 3_000_000_000;

/// The delay after which the host is asked to paint again, in nanoseconds.
pub const REPAINT_DELAY: u64 = 16_000_000;

/// The character's centre is 150 pixels from the left of the 300 by 400
/// pixel surface.
pub const CENTER_X: i32 = 15_000;

/// The character's centre is 250 pixels from the top of the surface.
pub const CENTER_Y: i32 = 25_000;

/// The radius of the circle that senses hover and clicks: 60 pixels.
pub const HIT_RADIUS: u32 = 6_000;

/// The scale the character is drawn at, in tenths.
pub const SCALE_REST: u8 = 10;

/// The scale while the pointer hovers over the character, in tenths.
pub const SCALE_HOVER: u8 = 11;

/// The character's mood.
#[derive(Clone, Copy, Debug, PartialEq, Eq, Structural)]
pub enum CharacterState {
    Idle,
    Talking,
}

/// What the host sampled for one frame.
#[derive(Clone, Copy, Debug, PartialEq, Eq)]
pub struct FrameInput {
    /// Time since the previous frame, in nanoseconds.
    pub dt: u64,
    /// The host's clock, in nanoseconds since a moment of its choosing.
    pub now: u64,
    /// Where the pointer last interacted, if it is known.
    pub interact_pos: Option<Point>,
    /// Whether the primary button was clicked during this frame.
    pub primary_clicked: bool,
    /// Where the pointer hovers, if it is over the surface.
    pub hover_pos: Option<Point>,
}

/// What one frame shows, decided before anything is painted.
#[derive(Clone, Copy, Debug, PartialEq, Eq)]
pub struct Frame {
    /// The host should ask for the next frame after this many nanoseconds.
    pub repaint_after: u64,
    /// The message in the speech bubble, if the bubble is up.
    pub bubble: Option<&'static str>,
    /// The scale of the character, in tenths.
    pub scale: u8,
    /// The mood the character is drawn in.
    pub mood: CharacterState,
    /// The animation clock the character is drawn at, in nanoseconds.
    pub animation_time: u64,
    /// The opacity of the drag hint, while it has not faded out.
    pub hint_alpha: Option<u8>,
}

/// The messages, in the order the character says them.
pub open spec fn greetings() -> Seq<&'static str> {
    seq![
        "Hi there! 👋",
        "I'm Deskling, your desktop buddy!",
        "Drag me anywhere you like!",
        "Click me again for another message!",
        "I can show text in speech bubbles!",
        "Having fun yet? 😊",
        "I'm a simple stickman for now!",
        "This is the MVP demo in Rust!",
        "More features coming soon!",
        "Built with egui and Rust!",
    ]
}

/// The character's centre.
pub open spec fn center() -> Point {
    Point { x: CENTER_X, y: CENTER_Y }
}

/// Whether a pointer at `pos` is on the character.
pub open spec fn on_character(pos: Option<Point>) -> bool {
    pos matches Some(p) && within(p, center(), HIT_RADIUS)
}

/// Whether the frame carries a click on the character.
pub open spec fn clicks_character(input: FrameInput) -> bool {
    input.primary_clicked && on_character(input.interact_pos)
}

/// The scale for a pointer hovering at `pos`.
pub open spec fn scale_for(pos: Option<Point>) -> u8 {
    if on_character(pos) {
        SCALE_HOVER
    } else {
        SCALE_REST
    }
}

/// How opaque the drag hint is at animation time `t`: it falls linearly from
/// 255 at the start to 0 at `HINT_LIFETIME`, rounded down, and stays at 0.
pub open spec fn hint_opacity(t: u64) -> int {
    if t < HINT_LIFETIME {
        ((HINT_LIFETIME - t) * 255) / (HINT_LIFETIME as int)
    } else {
        0
    }
}

/// The opacity the drag hint is painted with at animation time `t`; from
/// `HINT_LIFETIME` on it is not painted any more.
pub open spec fn hint_alpha_at(t: u64) -> Option<u8> {
    if t < HINT_LIFETIME {
        Some(hint_opacity(t) as u8)
    } else {
        None
    }
}

/// The state as contracts see it.
pub struct AppView {
    pub current_message_index: nat,
    pub speech_bubble_visible: bool,
    pub speech_bubble_timer: Option<u64>,
    pub animation_time: u64,
    pub character_state: CharacterState,
}

impl AppView {
    /// The state at startup.
    pub open spec fn initial() -> AppView {
        AppView {
            current_message_index: 0,
            speech_bubble_visible: false,
            speech_bubble_timer: None,
            animation_time: 0,
            character_state: CharacterState::Idle,
        }
    }

    /// The index selects one of the messages.
    pub open spec fn wf(self) -> bool {
        self.current_message_index < MESSAGE_COUNT
    }

    /// The bubble is up exactly while its timer runs, and exactly then the
    /// character talks.
    pub open spec fn coherent(self) -> bool {
        &&& self.speech_bubble_visible == self.speech_bubble_timer.is_some()
        &&& self.speech_bubble_visible == (self.character_state == CharacterState::Talking)
    }

    /// The state with the bubble put up at `now`.
    pub open spec fn shown(self, now: u64) -> AppView {
        AppView {
            speech_bubble_visible: true,
            speech_bubble_timer: Some(now),
            character_state: CharacterState::Talking,
            ..self
        }
    }

    /// The state with the bubble taken down.
    pub open spec fn hidden(self) -> AppView {
        AppView {
            speech_bubble_visible: false,
            speech_bubble_timer: None,
            character_state: CharacterState::Idle,
            ..self
        }
    }

    /// Whether a bubble timer runs and more than `BUBBLE_LIFETIME` has passed
    /// on it at `now`.
    pub open spec fn expired(self, now: u64) -> bool {
        self.speech_bubble_timer matches Some(start) && now - start > BUBBLE_LIFETIME
    }

    /// Whether the welcome message is due: the animation clock is inside the
    /// welcome window and no bubble is up.
    pub open spec fn welcome_due(self) -> bool {
        WELCOME_OPENS < self.animation_time < WELCOME_CLOSES && !self.speech_bubble_visible
    }

    /// The animation clock moves on by `dt`, and stops at the largest value it
    /// can hold.
    pub open spec fn tick(self, dt: u64) -> AppView {
        AppView { animation_time: self.animation_time.saturating_add(dt), ..self }
    }

    /// An expired bubble comes down.
    pub open spec fn expire(self, now: u64) -> AppView {
        if self.expired(now) {
            self.hidden()
        } else {
            self
        }
    }

    /// A click on the character puts the bubble up with the next message.
    pub open spec fn click(self, input: FrameInput) -> AppView {
        if clicks_character(input) {
            AppView {
                current_message_index: (self.current_message_index + 1) % (MESSAGE_COUNT as nat),
                ..self.shown(input.now)
            }
        } else {
            self
        }
    }

    /// The welcome message goes up when it is due; the message stays the same.
    pub open spec fn welcome(self, now: u64) -> AppView {
        if self.welcome_due() {
            self.shown(now)
        } else {
            self
        }
    }

    /// The state a frame is drawn from: the clock has moved, an expired bubble
    /// is down, and a click is taken in.
    pub open spec fn drawn(self, input: FrameInput) -> AppView {
        self.tick(input.dt).expire(input.now).click(input)
    }

    /// The state after a whole frame.
    pub open spec fn step(self, input: FrameInput) -> AppView {
        self.drawn(input).welcome(input.now)
    }

    /// What a frame drawn from this state shows when the pointer hovers at
    /// `hover_pos`.
    pub open spec fn frame(self, hover_pos: Option<Point>) -> Frame {
        Frame {
            repaint_after: REPAINT_DELAY,
            bubble: if self.speech_bubble_visible {
                Some(greetings()[self.current_message_index as int])
            } else {
                None
            },
            scale: scale_for(hover_pos),
            mood: self.character_state,
            animation_time: self.animation_time,
            hint_alpha: hint_alpha_at(self.animation_time),
        }
    }
}

/// The scale the character is drawn at: `SCALE_HOVER` while the pointer is
/// strictly inside the hit circle, `SCALE_REST` otherwise.
pub fn hover_scale(hover_pos: Option<Point>) -> (scale: u8)
    ensures
        scale == scale_for(hover_pos),
        on_character(hover_pos) ==> scale == 11,
        !on_character(hover_pos) ==> scale == 10,
{
    match hover_pos {
        Some(p) => {
            if within_radius(p, Point { x: CENTER_X, y: CENTER_Y }, HIT_RADIUS) {
                SCALE_HOVER
            } else {
                SCALE_REST
            }
        },
        None => SCALE_REST,
    }
}

/// The opacity the drag hint is painted with at animation time `t`, if it is
/// painted.
pub fn hint_alpha(t: u64) -> (alpha: Option<u8>)
    ensures
        alpha == hint_alpha_at(t),
        alpha.is_some() <==> t < HINT_LIFETIME,
        alpha matches Some(a) ==> a == hint_opacity(t),
{
    if t < HINT_LIFETIME {
        let level: u64 = (HINT_LIFETIME - t) * 255 / HINT_LIFETIME;
        Some(level as u8)
    } else {
        None
    }
}

/// The companion: its messages, which of them is current, the speech bubble
/// and its timer, the animation clock and the mood.
pub struct DesklingApp {
    messages: Vec<&'static str>,
    current_message_index: usize,
    speech_bubble_visible: bool,
    speech_bubble_timer: Option<u64>,
    animation_time: u64,
    character_state: CharacterState,
}

impl View for DesklingApp {
    type V = AppView;

    closed spec fn view(&self) -> AppView {
        AppView {
            current_message_index: self.current_message_index as nat,
            speech_bubble_visible: self.speech_bubble_visible,
            speech_bubble_timer: self.speech_bubble_timer,
            animation_time: self.animation_time,
            character_state: self.character_state,
        }
    }
}

impl DesklingApp {
    #[verifier::type_invariant]
    spec fn inv(self) -> bool {
        &&& self.messages@ == greetings()
        &&& self.current_message_index < MESSAGE_COUNT
    }

    /// The companion at startup: the first message is current, the bubble is
    /// down, the clock is at zero and the character is idle.
    pub fn new() -> (app: DesklingApp)
        ensures
            app@ == AppView::initial(),
            app@.wf(),
            app@.coherent(),
    {
        DesklingApp {
            messages: vec![
                "Hi there! 👋",
                "I'm Deskling, your desktop buddy!",
                "Drag me anywhere you like!",
                "Click me again for another message!",
                "I can show text in speech bubbles!",
                "Having fun yet? 😊",
                "I'm a simple stickman for now!",
                "This is the MVP demo in Rust!",
                "More features coming soon!",
                "Built with egui and Rust!",
            ],
            current_message_index: 0,
            speech_bubble_visible: false,
            speech_bubble_timer: None,
            animation_time: 0,
            character_state: CharacterState::Idle,
        }
    }

    /// The messages, in the order the character says them.
    pub fn messages(&self) -> (messages: &Vec<&'static str>)
        ensures
            messages@ == greetings(),
    {
        proof {
            use_type_invariant(self);
        }
        &self.messages
    }

    /// The message the bubble shows while it is up.
    pub fn current_message(&self) -> (message: &'static str)
        ensures
            self@.wf(),
            message == greetings()[self@.current_message_index as int],
    {
        proof {
            use_type_invariant(self);
        }
        self.messages[self.current_message_index]
    }

    pub fn current_message_index(&self) -> (index: usize)
        ensures
            index == self@.current_message_index,
            index < MESSAGE_COUNT,
    {
        proof {
            use_type_invariant(self);
        }
        self.current_message_index
    }

    pub fn speech_bubble_visible(&self) -> (visible: bool)
        ensures
            visible == self@.speech_bubble_visible,
    {
        self.speech_bubble_visible
    }

    /// When the bubble was last put up, on the host's clock, while it is up.
    pub fn speech_bubble_timer(&self) -> (timer: Option<u64>)
        ensures
            timer == self@.speech_bubble_timer,
    {
        self.speech_bubble_timer
    }

    /// The animation clock, in nanoseconds.
    pub fn animation_time(&self) -> (t: u64)
        ensures
            t == self@.animation_time,
    {
        self.animation_time
    }

    pub fn character_state(&self) -> (mood: CharacterState)
        ensures
            mood == self@.character_state,
    {
        self.character_state
    }

    /// The colour the surface is cleared to before a frame is painted.
    pub fn clear_color(&self) -> (color: Rgba)
        ensures
            color == Rgba::transparent(),
    {
        Rgba::transparent()
    }

    /// Advances the companion by one frame and says what the frame shows.
    ///
    /// The animation clock moves on by `input.dt`. A bubble that has been up
    /// for more than `BUBBLE_LIFETIME` comes down and the character falls
    /// idle. A click on the character puts the bubble up with the next
    /// message. The frame is decided from that state. Last, the welcome
    /// message goes up if it is due, to be seen from the next frame on.
    pub fn update(&mut self, input: &FrameInput) -> (frame: Frame)
        ensures
            final(self)@ == old(self)@.step(*input),
            frame == old(self)@.drawn(*input).frame(input.hover_pos),
            final(self)@.wf(),
            old(self)@.coherent() ==> final(self)@.coherent(),
            final(self)@.animation_time >= old(self)@.animation_time,
    {
        proof {
            use_type_invariant(&*self);
        }
        self.animation_time = self.animation_time.saturating_add(input.dt);

        if let Some(start) = self.speech_bubble_timer {
            if input.now > start && input.now - start > BUBBLE_LIFETIME {
                self.speech_bubble_visible = false;
                self.speech_bubble_timer = None;
                self.character_state = CharacterState::Idle;
            }
        }

        if let Some(pos) = input.interact_pos {
            if input.primary_clicked {
                if within_radius(pos, Point { x: CENTER_X, y: CENTER_Y }, HIT_RADIUS) {
                    self.speech_bubble_visible = true;
                    self.speech_bubble_timer = Some(input.now);
                    self.character_state = CharacterState::Talking;
                    self.current_message_index = (self.current_message_index + 1)
                        % self.messages.len();
                }
            }
        }

        let frame = Frame {
            repaint_after: REPAINT_DELAY,
            bubble: if self.speech_bubble_visible {
                Some(self.messages[self.current_message_index])
            } else {
                None
            },
            scale: hover_scale(input.hover_pos),
            mood: self.character_state,
            animation_time: self.animation_time,
            hint_alpha: hint_alpha(self.animation_time),
        };

        if self.animation_time > WELCOME_OPENS && self.animation_time < WELCOME_CLOSES
            && !self.speech_bubble_visible {
            self.speech_bubble_visible = true;
            self.speech_bubble_timer = Some(input.now);
            self.character_state = CharacterState::Talking;
        }
        frame
    }
}

impl Default for DesklingApp {
    fn default() -> (app: DesklingApp)
        ensures
            app@ == AppView::initial(),
    {
        DesklingApp::new()
    }
}

/// The startup state is well formed and coherent, and a frame keeps a state
/// so, whatever the host sampled.
pub proof fn lemma_frames_keep_invariants(v: AppView, input: FrameInput)
    ensures
        AppView::initial().wf() && AppView::initial().coherent(),
        v.wf() ==> v.drawn(input).wf() && v.step(input).wf(),
        v.coherent() ==> v.drawn(input).coherent() && v.step(input).coherent(),
{
}

/// A frame with a click on the character moves on to the next message, going
/// round after the last; any other frame leaves the message alone.
pub proof fn lemma_frame_message(v: AppView, input: FrameInput)
    requires
        v.wf(),
    ensures
        clicks_character(input) ==> v.step(input).current_message_index == (
        v.current_message_index + 1) % (MESSAGE_COUNT as nat),
        !clicks_character(input) ==> v.step(input).current_message_index
            == v.current_message_index,
{
}

/// A click that lands outside the hit circle, be it on its very edge, counts
/// for nothing: the message, the mood and the bubble come out of the frame as
/// they would have without the click.
pub proof fn lemma_click_outside_is_ignored(v: AppView, input: FrameInput, p: Point)
    requires
        input.primary_clicked,
        input.interact_pos == Some(p),
        !within(p, center(), HIT_RADIUS),
    ensures
        v.click(input) == v,
        v.step(input) == v.step(FrameInput { primary_clicked: false, ..input }),
        v.drawn(input).frame(input.hover_pos) == v.drawn(
            FrameInput { primary_clicked: false, ..input },
        ).frame(input.hover_pos),
        v.step(input).current_message_index == v.current_message_index,
{
}

/// A bubble put up at `start` is still up in a frame drawn at `now` if less
/// than `BUBBLE_LIFETIME` has passed, and is down, with the character idle
/// again, if more has; a click on the character aside, which puts it up anew.
///
/// A frame drawn at exactly `BUBBLE_LIFETIME` is left out here: the bubble is
/// still up in it, and comes down in the first frame after.
pub proof fn lemma_bubble_lifetime(v: AppView, start: u64, input: FrameInput)
    requires
        v.coherent(),
        v.speech_bubble_timer == Some(start),
        !clicks_character(input),
        input.now - start != BUBBLE_LIFETIME,
    ensures
        v.speech_bubble_visible,
        v.drawn(input).speech_bubble_visible == (input.now - start < BUBBLE_LIFETIME),
        v.drawn(input).character_state == if input.now - start < BUBBLE_LIFETIME {
            CharacterState::Talking
        } else {
            CharacterState::Idle
        },
        v.expire(input.now) == if input.now - start < BUBBLE_LIFETIME {
            v
        } else {
            v.hidden()
        },
{
}

/// The drag hint is fully opaque at the start and fully transparent when
/// `HINT_LIFETIME` has passed, and in between it fades linearly: its opacity
/// is the share of the lifetime that is left, taken of 255 and rounded down.
/// So it never grows.
pub proof fn lemma_hint_fades(t: u64, later: u64)
    requires
        t <= later,
    ensures
        hint_opacity(0) == 255,
        hint_opacity(HINT_LIFETIME) == 0,
        0 <= hint_opacity(later) <= hint_opacity(t) <= 255,
        t <= HINT_LIFETIME ==> hint_opacity(t) * HINT_LIFETIME <= (HINT_LIFETIME - t) * 255
            < (hint_opacity(t) + 1) * HINT_LIFETIME,
{
}

} // verus!
