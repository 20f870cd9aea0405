//! The named views of this application, each one instance of the component
//! family with its own configuration.

use vstd::prelude::*;

use crate::action::Action;
use crate::component::{
    Component, ComponentModel, component_wf, spec_component_update, spec_progress_num,
    spec_splash_lines, lines_view,
};

verus! {

/// A frame of six text lines.
fn splash_frame(l0: &str, l1: &str, l2: &str, l3: &str, l4: &str, l5: &str) -> (r:
    crate::component::Frame)
    ensures
        r@.len() == 6,
{
    let mut lines: Vec<String> = Vec::new();
    lines.push(String::from_str(l0));
    lines.push(String::from_str(l1));
    lines.push(String::from_str(l2));
    lines.push(String::from_str(l3));
    lines.push(String::from_str(l4));
    lines.push(String::from_str(l5));
    crate::component::Frame { lines }
}

/// The login logo building up letter by letter, one frame per tick.
fn logo_frames() -> (r: Vec<crate::component::Frame>)
    ensures
        r@.len() == 7,
        forall|i: int| 0 <= i < r@.len() ==> #[trigger] r@[i]@.len() == 6,
{
    let mut frames: Vec<crate::component::Frame> = Vec::new();
    frames.push(
        splash_frame("     __", "    / /", "   / / ", "  / /  ", " / /   ", "/_/    "),
    );
    frames.push(
        splash_frame(
            "     __ __",
            "   _/ // /",
            "  / __/ / ",
            " (_  ) /  ",
            "/  _/ /   ",
            "/_//_/    ",
        ),
    );
    frames.push(
        splash_frame(
            "     __ __  __",
            "   _/ // /_/ /",
            "  / __/ __/ / ",
            " (_  ) /_/ /  ",
            "/  _/\\__/ /   ",
            "/_/    /_/    ",
        ),
    );
    frames.push(
        splash_frame(
            "     __ __        __",
            "   _/ // /_____ _/ /",
            "  / __/ __/ __ `/ / ",
            " (_  ) /_/ /_/ / /  ",
            "/  _/\\__/\\__,_/ /   ",
            "/_/          /_/    ",
        ),
    );
    frames.push(
        splash_frame(
            "     __ __             __",
            "   _/ // /_____ ______/ /",
            "  / __/ __/ __ `/ ___/ / ",
            " (_  ) /_/ /_/ (__  ) /  ",
            "/  _/\\__/\\__,_/____/ /   ",
            "/_/               /_/    ",
        ),
    );
    frames.push(
        splash_frame(
            "     __ __             __    __",
            "   _/ // /_____ ______/ /_  / /",
            "  / __/ __/ __ `/ ___/ __ \\/ / ",
            " (_  ) /_/ /_/ (__  ) / / / /  ",
            "/  _/\\__/\\__,_/____/_/ /_/ /   ",
            "/_/                     /_/    ",
        ),
    );
    frames.push(
        splash_frame(
            "     __ __             __      ",
            "   _/ // /_____ ______/ /_     ",
            "  / __/ __/ __ `/ ___/ __ \\    ",
            " (_  ) /_/ /_/ (__  ) / / /    ",
            "/  _/\\__/\\__,_/____/_/ /_/     ",
            "/_/                            ",
        ),
    );
    frames
}

/// The home view: a plain progress gauge fed by startup messages.
pub struct Home {
    core: Component,
}

impl View for Home {
    type V = ComponentModel;

    closed spec fn view(&self) -> ComponentModel {
        self.core@
    }
}

impl Home {
    /// A gauge at zero progress; ten startup messages fill it.
    pub fn new() -> (r: Home)
        ensures
            component_wf(r@),
            r@.frames.len() == 0,
            !r@.animated,
            r@.counter == 0,
            r@.messages == Seq::<Seq<char>>::empty(),
            r@.expected_messages == 10,
    {
        Home { core: Component::new(Vec::new(), false, 10) }
    }

    /// Applies one action; see [`spec_component_update`].
    pub fn update(&mut self, action: &Action) -> (r: Option<Action>)
        requires
            component_wf(old(self)@),
        ensures
            final(self)@ == spec_component_update(old(self)@, action@),
            component_wf(final(self)@),
            r is None,
    {
        self.core.update(action)
    }

    /// The progress ratio as numerator over denominator.
    pub fn progress(&self) -> (r: (usize, usize))
        requires
            component_wf(self@),
        ensures
            r.0 == spec_progress_num(self@),
            r.1 == self@.expected_messages,
            r.0 <= r.1,
    {
        self.core.progress()
    }

    /// This view as the underlying component family member.
    pub fn component(self) -> (r: Component)
        ensures
            r@ == self@,
    {
        self.core
    }
}

/// The login progress gauge: identical behaviour to the home gauge.
pub struct LoginGauge {
    core: Component,
}

impl View for LoginGauge {
    type V = ComponentModel;

    closed spec fn view(&self) -> ComponentModel {
        self.core@
    }
}

impl LoginGauge {
    /// A gauge at zero progress; ten startup messages fill it.
    pub fn new() -> (r: LoginGauge)
        ensures
            component_wf(r@),
            r@.frames.len() == 0,
            !r@.animated,
            r@.counter == 0,
            r@.messages == Seq::<Seq<char>>::empty(),
            r@.expected_messages == 10,
    {
        LoginGauge { core: Component::new(Vec::new(), false, 10) }
    }

    /// Applies one action; see [`spec_component_update`].
    pub fn update(&mut self, action: &Action) -> (r: Option<Action>)
        requires
            component_wf(old(self)@),
        ensures
            final(self)@ == spec_component_update(old(self)@, action@),
            component_wf(final(self)@),
            r is None,
    {
        self.core.update(action)
    }

    /// The progress ratio as numerator over denominator.
    pub fn progress(&self) -> (r: (usize, usize))
        requires
            component_wf(self@),
        ensures
            r.0 == spec_progress_num(self@),
            r.1 == self@.expected_messages,
            r.0 <= r.1,
    {
        self.core.progress()
    }

    /// This view as the underlying component family member.
    pub fn component(self) -> (r: Component)
        ensures
            r@ == self@,
    {
        self.core
    }
}

/// The animated login splash without a gauge.
pub struct LoginSplash {
    core: Component,
}

impl View for LoginSplash {
    type V = ComponentModel;

    closed spec fn view(&self) -> ComponentModel {
        self.core@
    }
}

impl LoginSplash {
    /// The splash at its first frame, still animating.
    pub fn new() -> (r: LoginSplash)
        ensures
            component_wf(r@),
            r@.frames.len() == 7,
            r@.animated,
            r@.counter == 0,
            r@.messages == Seq::<Seq<char>>::empty(),
            r@.expected_messages == 3,
    {
        LoginSplash { core: Component::new(logo_frames(), true, 3) }
    }

    /// Applies one action; see [`spec_component_update`].
    pub fn update(&mut self, action: &Action) -> (r: Option<Action>)
        requires
            component_wf(old(self)@),
        ensures
            final(self)@ == spec_component_update(old(self)@, action@),
            component_wf(final(self)@),
            r is None,
    {
        self.core.update(action)
    }

    /// The text lines of one draw pass; see [`spec_splash_lines`].
    pub fn splash_lines(&self, height: u16) -> (r: Vec<String>)
        requires
            component_wf(self@),
        ensures
            lines_view(r@) == spec_splash_lines(self@, height as int),
    {
        self.core.splash_lines(height)
    }

    /// This view as the underlying component family member.
    pub fn component(self) -> (r: Component)
        ensures
            r@ == self@,
    {
        self.core
    }
}

/// The login view: the animated splash above a line gauge, in one component.
pub struct LoginComponent {
    core: Component,
}

impl View for LoginComponent {
    type V = ComponentModel;

    closed spec fn view(&self) -> ComponentModel {
        self.core@
    }
}

impl LoginComponent {
    /// The login view at its first frame; three startup messages fill its
    /// gauge.
    pub fn new() -> (r: LoginComponent)
        ensures
            component_wf(r@),
            r@.frames.len() == 7,
            r@.animated,
            r@.counter == 0,
            r@.messages == Seq::<Seq<char>>::empty(),
            r@.expected_messages == 3,
    {
        LoginComponent { core: Component::new(logo_frames(), true, 3) }
    }

    /// Applies one action; see [`spec_component_update`].
    pub fn update(&mut self, action: &Action) -> (r: Option<Action>)
        requires
            component_wf(old(self)@),
        ensures
            final(self)@ == spec_component_update(old(self)@, action@),
            component_wf(final(self)@),
            r is None,
    {
        self.core.update(action)
    }

    /// The progress ratio as numerator over denominator.
    pub fn progress(&self) -> (r: (usize, usize))
        requires
            component_wf(self@),
        ensures
            r.0 == spec_progress_num(self@),
            r.1 == self@.expected_messages,
            r.0 <= r.1,
    {
        self.core.progress()
    }

    /// The text lines of the splash part of one draw pass.
    pub fn splash_lines(&self, height: u16) -> (r: Vec<String>)
        requires
            component_wf(self@),
        ensures
            lines_view(r@) == spec_splash_lines(self@, height as int),
    {
        self.core.splash_lines(height)
    }

    /// This view as the underlying component family member.
    pub fn component(self) -> (r: Component)
        ensures
            r@ == self@,
    {
        self.core
    }
}

} // verus!
