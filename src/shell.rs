//! The application state and what it draws on each frame.
use vstd::prelude::*;

verus! {

/// How a text widget is styled.
#[derive(Clone, Copy, Debug, PartialEq, Eq, Structural)]
pub enum WidgetKind {
    Heading,
    Label,
}

/// One text widget of a frame, in layout order from top to bottom.
#[derive(Clone, Copy, Debug)]
pub struct Widget {
    pub kind: WidgetKind,
    pub text: &'static str,
}

/// The text of the heading.
pub open spec fn heading_text() -> Seq<char> {
    "Hello, world!"@
}

/// The text of the label under the heading.
pub open spec fn label_text() -> Seq<char> {
    "最新版のeframeで動作するコードです！"@
}

/// A frame as the shell lays it out: the heading, then the label, nothing else.
pub open spec fn is_standard_frame(frame: Seq<Widget>) -> bool {
    &&& frame.len() == 2
    &&& frame[0].kind == WidgetKind::Heading
    &&& frame[0].text@ == heading_text()
    &&& frame[1].kind == WidgetKind::Label
    &&& frame[1].text@ == label_text()
}

/// The application state. It holds nothing, so every value of it is the same.
#[derive(Clone, Copy, Debug, PartialEq, Eq, Structural)]
pub struct MyApp {}

/// One frame drawn from `before`: the state is left as `after` and `frame`
/// was laid out.
pub open spec fn is_frame_step(before: MyApp, after: MyApp, frame: Seq<Widget>) -> bool {
    after == before && is_standard_frame(frame)
}

impl Default for MyApp {
    fn default() -> (r: Self)
        ensures
            r == (MyApp {}),
    {
        MyApp {}
    }
}

impl MyApp {
    /// Lays out one frame. The state is not changed, and the widgets are the
    /// same on every frame.
    pub fn update(&mut self) -> (frame: Vec<Widget>)
        ensures
            is_frame_step(*old(self), *final(self), frame@),
    {
        let mut frame: Vec<Widget> = Vec::new();
        frame.push(Widget { kind: WidgetKind::Heading, text: "Hello, world!" });
        frame.push(Widget { kind: WidgetKind::Label, text: "最新版のeframeで動作するコードです！" });
        frame
    }
}

/// Construction has nothing to vary: any two application states are equal,
/// so building one twice gives the same value.
pub proof fn lemma_state_is_unique(a: MyApp, b: MyApp)
    ensures
        a == b,
{
}

/// Drawing any number of frames in a row leaves the state as it was, and
/// every frame of the run is the standard one.
pub proof fn lemma_frames_keep_state(states: Seq<MyApp>, frames: Seq<Seq<Widget>>)
    requires
        states.len() == frames.len() + 1,
        forall|i: int|
            0 <= i < frames.len() ==> #[trigger] is_frame_step(states[i], states[i + 1], frames[i]),
    ensures
        states.last() == states[0],
        forall|i: int| 0 <= i < frames.len() ==> is_standard_frame(#[trigger] frames[i]),
    decreases frames.len(),
{
    if frames.len() > 0 {
        let n = frames.len() - 1;
        let s = states.drop_last();
        let f = frames.drop_last();
        assert forall|i: int| 0 <= i < f.len() implies #[trigger] is_frame_step(s[i], s[i + 1], f[i]) by {
            assert(is_frame_step(states[i], states[i + 1], frames[i]));
        }
        lemma_frames_keep_state(s, f);
        assert(is_frame_step(states[n], states[n + 1], frames[n]));
    }
    assert forall|i: int| 0 <= i < frames.len() implies is_standard_frame(#[trigger] frames[i]) by {
        assert(is_frame_step(states[i], states[i + 1], frames[i]));
    }
}

} // verus!
