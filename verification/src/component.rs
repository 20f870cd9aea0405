//! The view-component family: one polymorphic component parameterized by a
//! small configuration (animation frames, expected message count) instead of
//! near-duplicate per-view types.
//!
//! A component holds its own private render and progress state, reacts to
//! actions through `update`, and exposes the text lines and the progress
//! ratio that a draw pass renders. Components never reference each other;
//! they communicate only through emitted actions.

use vstd::prelude::*;

use crate::action::{Action, ActionView, spec_lookup_pairs};
use crate::events::TerminalEvent;

verus! {

/// The views of a sequence of strings.
pub open spec fn lines_view(s: Seq<String>) -> Seq<Seq<char>> {
    Seq::new(s.len(), |i: int| s[i]@)
}

/// One animation frame: the text lines drawn for it, top to bottom.
pub struct Frame {
    pub lines: Vec<String>,
}

impl View for Frame {
    type V = Seq<Seq<char>>;

    open spec fn view(&self) -> Seq<Seq<char>> {
        lines_view(self.lines@)
    }
}

/// The mathematical value of a [`Component`].
#[verifier::ext_equal]
pub ghost struct ComponentModel {
    /// The animation frames, each a list of lines.
    pub frames: Seq<Seq<Seq<char>>>,
    /// Whether the animation still advances on ticks.
    pub animated: bool,
    /// The current animation frame index.
    pub counter: nat,
    /// The startup messages received so far, in arrival order.
    pub messages: Seq<Seq<char>>,
    /// How many startup messages a full progress bar stands for.
    pub expected_messages: nat,
    /// The keybinding/config snapshot handed over at registration.
    pub config: Seq<(crate::keys::Mode, Seq<crate::keys::KeyPress>, ActionView)>,
}

/// Well-formedness of a component: the frame index stays inside the frames,
/// a frameless component does not animate, and the sizes stay machine-sized.
pub open spec fn component_wf(c: ComponentModel) -> bool {
    &&& (c.frames.len() == 0 ==> c.counter == 0 && !c.animated)
    &&& (c.frames.len() > 0 ==> c.counter < c.frames.len())
    &&& 0 < c.expected_messages <= usize::MAX
    &&& (forall|i: int| 0 <= i < c.frames.len() ==> #[trigger] c.frames[i].len() + 2 <= usize::MAX)
}

/// Whether an action is a `Message` whose mapping carries a startup entry.
pub open spec fn is_startup_message(a: ActionView) -> bool {
    a matches ActionView::Message(entries) && spec_lookup_pairs(entries, "startup"@) is Some
}

/// How one action changes a component: a `Tick` advances the animation until
/// its last frame, where it stops; a `Message` carrying a startup entry
/// appends that entry's value to the received messages; everything else
/// leaves the component unchanged.
pub open spec fn spec_component_update(c: ComponentModel, a: ActionView) -> ComponentModel {
    match a {
        ActionView::Tick => {
            if c.animated {
                if c.counter + 1 < c.frames.len() {
                    ComponentModel { counter: (c.counter + 1) as nat, ..c }
                } else {
                    ComponentModel {
                        counter: if c.frames.len() > 0 {
                            (c.frames.len() - 1) as nat
                        } else {
                            0
                        },
                        animated: false,
                        ..c
                    }
                }
            } else {
                c
            }
        },
        ActionView::Message(entries) => {
            match spec_lookup_pairs(entries, "startup"@) {
                Some(v) => ComponentModel { messages: c.messages.push(v), ..c },
                None => c,
            }
        },
        _ => c,
    }
}

/// The progress numerator: messages received, capped at the expected total.
/// The progress ratio is this over `expected_messages`.
pub open spec fn spec_progress_num(c: ComponentModel) -> nat {
    if c.messages.len() < c.expected_messages {
        c.messages.len()
    } else {
        c.expected_messages
    }
}

/// Folding a whole sequence of actions over a component, in arrival order.
pub open spec fn spec_component_update_all(
    c: ComponentModel,
    actions: Seq<ActionView>,
) -> ComponentModel
    decreases actions.len(),
{
    if actions.len() == 0 {
        c
    } else {
        spec_component_update_all(spec_component_update(c, actions[0]), actions.drop_first())
    }
}

/// Progress accumulation is monotonic and capped: no single action lowers
/// the progress numerator, and the numerator never exceeds the expected
/// total, so the ratio never exceeds one.
pub proof fn lemma_progress_monotonic(c: ComponentModel, a: ActionView)
    ensures
        spec_progress_num(spec_component_update(c, a)) >= spec_progress_num(c),
        spec_progress_num(c) <= c.expected_messages,
{
}

/// Progress saturates exactly at one: feeding enough startup messages that
/// received plus fed reaches the expected total leaves the numerator exactly
/// equal to the denominator, never above it.
pub proof fn lemma_progress_saturates(c: ComponentModel, actions: Seq<ActionView>)
    requires
        forall|i: int| 0 <= i < actions.len() ==> is_startup_message(#[trigger] actions[i]),
        c.messages.len() + actions.len() >= c.expected_messages,
    ensures
        spec_component_update_all(c, actions).expected_messages == c.expected_messages,
        spec_progress_num(spec_component_update_all(c, actions)) == c.expected_messages,
    decreases actions.len(),
{
    if actions.len() == 0 {
    } else {
        let c1 = spec_component_update(c, actions[0]);
        assert(is_startup_message(actions[0]));
        assert(c1.messages.len() == c.messages.len() + 1);
        assert forall|i: int| 0 <= i < actions.drop_first().len() implies is_startup_message(
            #[trigger] actions.drop_first()[i],
        ) by {
            assert(actions.drop_first()[i] == actions[i + 1]);
        }
        lemma_progress_saturates(c1, actions.drop_first());
    }
}

/// `n` blank lines.
pub open spec fn blank_lines(n: int) -> Seq<Seq<char>> {
    Seq::new(n as nat, |i: int| Seq::<char>::empty())
}

/// The animation frame a component currently shows.
pub open spec fn spec_splash_frame(c: ComponentModel) -> Seq<Seq<char>> {
    if c.frames.len() > 0 {
        c.frames[c.counter as int]
    } else {
        Seq::<Seq<char>>::empty()
    }
}

/// The loading message a component currently shows: the received message
/// indexed by the frame counter, wrapping around, or a placeholder while
/// none has arrived.
pub open spec fn spec_splash_message(c: ComponentModel) -> Seq<char> {
    if c.messages.len() > 0 {
        c.messages[(c.counter % c.messages.len()) as int]
    } else {
        "Loading..."@
    }
}

/// The full text of a splash draw pass on a surface `height` lines tall: the
/// current frame vertically centered, one blank separator line, the current
/// loading message, and blank padding above and below. When the surface is
/// too short the padding is dropped and the text overflows below.
pub open spec fn spec_splash_lines(c: ComponentModel, height: int) -> Seq<Seq<char>> {
    let frame = spec_splash_frame(c);
    let total = frame.len() + 2;
    let above = if height >= total {
        (height - total) / 2
    } else {
        0
    };
    let below = if height >= total {
        height - total - above
    } else {
        0
    };
    blank_lines(above) + frame + seq![Seq::<char>::empty()] + seq![spec_splash_message(c)]
        + blank_lines(below)
}

/// A pluggable view driven by the event loop.
pub struct Component {
    logo_frames: Vec<Frame>,
    is_animated: bool,
    counter: usize,
    loading_messages: Vec<String>,
    expected_messages: usize,
    config: crate::keys::KeyBindings,
}

impl View for Component {
    type V = ComponentModel;

    closed spec fn view(&self) -> ComponentModel {
        ComponentModel {
            frames: Seq::new(self.logo_frames@.len(), |i: int| self.logo_frames@[i]@),
            animated: self.is_animated,
            counter: self.counter as nat,
            messages: lines_view(self.loading_messages@),
            expected_messages: self.expected_messages as nat,
            config: self.config@,
        }
    }
}

impl Component {
    /// A component with the given animation frames and expected message
    /// count, at the start of its lifecycle.
    pub fn new(logo_frames: Vec<Frame>, animated: bool, expected_messages: usize) -> (r: Component)
        requires
            expected_messages >= 1,
            animated ==> logo_frames@.len() > 0,
            forall|i: int|
                0 <= i < logo_frames@.len() ==> #[trigger] logo_frames@[i]@.len() + 2 <= usize::MAX,
        ensures
            r@ == (ComponentModel {
                frames: Seq::new(logo_frames@.len(), |i: int| logo_frames@[i]@),
                animated,
                counter: 0,
                messages: Seq::<Seq<char>>::empty(),
                expected_messages: expected_messages as nat,
                config: Seq::<(crate::keys::Mode, Seq<crate::keys::KeyPress>, ActionView)>::empty(),
            }),
            component_wf(r@),
    {
        let r = Component {
            logo_frames,
            is_animated: animated,
            counter: 0,
            loading_messages: Vec::new(),
            expected_messages,
            config: crate::keys::KeyBindings::new(),
        };
        proof {
            assert(r@ =~= (ComponentModel {
                frames: Seq::new(r.logo_frames@.len(), |i: int| r.logo_frames@[i]@),
                animated,
                counter: 0,
                messages: Seq::<Seq<char>>::empty(),
                expected_messages: r.expected_messages as nat,
                config: Seq::<(crate::keys::Mode, Seq<crate::keys::KeyPress>, ActionView)>::empty(),
            }));
        }
        r
    }

    /// Receives the keybinding/config snapshot.
    pub fn register_config_handler(&mut self, config: crate::keys::KeyBindings)
        ensures
            final(self)@ == (ComponentModel { config: config@, ..old(self)@ }),
    {
        self.config = config;
    }

    /// Lifecycle hook run once with the initial surface size; this family
    /// keeps no size state.
    pub fn init(&mut self, _width: u16, _height: u16)
        ensures
            final(self)@ == old(self)@,
    {
    }

    /// Reacts to a raw terminal event; this family reacts only to actions,
    /// so no event ever produces one.
    pub fn handle_terminal_event(&mut self, _event: &TerminalEvent) -> (r: Option<Action>)
        ensures
            final(self)@ == old(self)@,
            r is None,
    {
        None
    }

    /// Applies one action to this component; side-effect-free with respect
    /// to every other component, and this family emits no follow-up action.
    pub fn update(&mut self, action: &Action) -> (r: Option<Action>)
        requires
            component_wf(old(self)@),
        ensures
            final(self)@ == spec_component_update(old(self)@, action@),
            component_wf(final(self)@),
            r is None,
    {
        match action {
            Action::Tick => {
                if self.is_animated {
                    let n = self.logo_frames.len();
                    proof {
                        assert(old(self)@.frames.len() == self.logo_frames@.len());
                        assert(0 < n && self.counter < n);
                    }
                    if self.counter < n - 1 {
                        self.counter = self.counter + 1;
                    } else {
                        self.counter = n - 1;
                        self.is_animated = false;
                    }
                }
            },
            Action::Message(map) => {
                let key = String::from_str("startup");
                match map.get(&key) {
                    Some(value) => {
                        let message = value.clone();
                        self.loading_messages.push(message);
                        proof {
                            assert(lines_view(self.loading_messages@) =~= old(
                                self,
                            )@.messages.push(self.loading_messages@.last()@));
                        }
                    },
                    None => {},
                }
            },
            _ => {},
        }
        None
    }

    /// The text lines of one splash draw pass over a surface `height` lines
    /// tall; see [`spec_splash_lines`] for the layout.
    pub fn splash_lines(&self, height: u16) -> (r: Vec<String>)
        requires
            component_wf(self@),
        ensures
            lines_view(r@) == spec_splash_lines(self@, height as int),
    {
        let ghost fr = spec_splash_frame(self@);
        let h: usize = height as usize;
        let flen: usize = if self.logo_frames.len() > 0 {
            self.logo_frames[self.counter].lines.len()
        } else {
            0
        };
        proof {
            assert(flen == fr.len());
        }
        let total: usize = flen + 2;
        let above: usize = if h >= total {
            (h - total) / 2
        } else {
            0
        };
        let below: usize = if h >= total {
            h - total - above
        } else {
            0
        };

        let mut out: Vec<String> = Vec::new();
        let mut i: usize = 0;
        while i < above
            invariant
                i <= above,
                out@.len() == i,
                forall|l: int| 0 <= l < i ==> #[trigger] out@[l]@ == Seq::<char>::empty(),
            decreases above - i,
        {
            out.push(String::new());
            i = i + 1;
        }

        if self.logo_frames.len() > 0 {
            let mut j: usize = 0;
            while j < flen
                invariant
                    j <= flen,
                    component_wf(self@),
                    self.logo_frames@.len() > 0,
                    self.counter < self.logo_frames@.len(),
                    fr == spec_splash_frame(self@),
                    flen == fr.len(),
                    out@.len() == above + j,
                    forall|l: int| 0 <= l < above ==> #[trigger] out@[l]@ == Seq::<char>::empty(),
                    forall|l: int|
                        above <= l < above + j ==> #[trigger] out@[l]@ == fr[l - above],
                decreases flen - j,
            {
                out.push(self.logo_frames[self.counter].lines[j].clone());
                j = j + 1;
            }
        }

        out.push(String::new());

        if self.loading_messages.len() > 0 {
            let idx: usize = self.counter % self.loading_messages.len();
            out.push(self.loading_messages[idx].clone());
        } else {
            out.push(String::from_str("Loading..."));
        }
        proof {
            assert(out@.len() == above + flen + 2);
            assert(out@[above + flen]@ == Seq::<char>::empty());
            assert(out@[above + flen + 1]@ == spec_splash_message(self@));
        }

        let ghost mid = out@;
        let mut k: usize = 0;
        while k < below
            invariant
                k <= below,
                out@.len() == mid.len() + k,
                forall|l: int| 0 <= l < mid.len() ==> #[trigger] out@[l] == mid[l],
                forall|l: int|
                    mid.len() <= l < mid.len() + k ==> #[trigger] out@[l]@ == Seq::<char>::empty(),
            decreases below - k,
        {
            out.push(String::new());
            k = k + 1;
        }

        proof {
            let s = spec_splash_lines(self@, height as int);
            assert(s.len() == above + flen + 2 + below);
            assert(out@.len() == above + flen + 2 + below);
            assert forall|l: int| 0 <= l < s.len() implies lines_view(out@)[l] == s[l] by {
                assert(lines_view(out@)[l] == out@[l]@);
                if l < above {
                    assert(s[l] == blank_lines(above as int)[l]);
                } else if l < above + flen {
                    assert(s[l] == fr[l - above]);
                } else if l == above + flen {
                    assert(s[l] == Seq::<char>::empty());
                } else if l == above + flen + 1 {
                    assert(s[l] == spec_splash_message(self@));
                } else {
                    assert(s[l] == Seq::<char>::empty());
                }
            }
            assert(lines_view(out@) =~= s);
        }
        out
    }

    /// The progress ratio as numerator and denominator: messages received,
    /// capped at the expected total, over the expected total. The ratio is
    /// monotone in the messages received and never exceeds one.
    pub fn progress(&self) -> (r: (usize, usize))
        requires
            component_wf(self@),
        ensures
            r.0 == spec_progress_num(self@),
            r.1 == self@.expected_messages,
            r.0 <= r.1,
    {
        if self.loading_messages.len() < self.expected_messages {
            (self.loading_messages.len(), self.expected_messages)
        } else {
            (self.expected_messages, self.expected_messages)
        }
    }
}

} // verus!
