//! The static title widget: a read-only label with a focus flag.
//!
//! The widget owns no selection and reacts to no navigation; it passes key
//! presses through to the owning view unchanged. Only the text it shows
//! and the focus flag are state; drawing is left to the rendering layer.

use vstd::prelude::*;

use crate::keys::Key;

verus! {

/// Text content of a component: an optional title and optional body rows.
pub struct TextParts {
    pub title: Option<String>,
    pub body: Option<Vec<String>>,
}

impl TextParts {
    /// Bundle a title and body rows.
    pub fn new(title: Option<String>, body: Option<Vec<String>>) -> (parts: TextParts)
        ensures
            parts.title == title,
            parts.body == body,
    {
        TextParts { title, body }
    }
}

/// Display properties of the title widget.
pub struct Props {
    /// Whether the widget is drawn at all.
    pub visible: bool,
    /// The texts the widget shows.
    pub texts: TextParts,
}

impl Default for Props {
    /// Visible, with no texts.
    fn default() -> (props: Props)
        ensures
            props.visible,
            props.texts.title is None,
            props.texts.body is None,
    {
        Props { visible: true, texts: TextParts { title: None, body: None } }
    }
}

/// Step-by-step constructor for [`Props`].
pub struct PropsBuilder {
    pub props: Props,
}

impl Default for PropsBuilder {
    /// Start from the default properties.
    fn default() -> (builder: PropsBuilder)
        ensures
            builder.props.visible,
            builder.props.texts.title is None,
            builder.props.texts.body is None,
    {
        PropsBuilder { props: Props { visible: true, texts: TextParts { title: None, body: None } } }
    }
}

impl PropsBuilder {
    /// Set the texts of the properties under construction.
    pub fn with_texts(self, texts: TextParts) -> (builder: PropsBuilder)
        ensures
            builder.props.texts == texts,
            builder.props.visible == self.props.visible,
    {
        let PropsBuilder { props } = self;
        PropsBuilder { props: Props { visible: props.visible, texts } }
    }

    /// Finish: hand out the constructed properties.
    pub fn build(self) -> (props: Props)
        ensures
            props == self.props,
    {
        self.props
    }
}

/// A message the title widget reports to the owning view.
#[derive(Clone, Copy, Debug, PartialEq, Eq, Structural)]
pub enum Msg {
    /// Nothing to report.
    NoOp,
    /// A key was pressed; it is passed through unchanged.
    OnKey(Key),
}

/// A value read out of a component; the title widget never carries one.
#[derive(Clone, Copy, Debug, PartialEq, Eq, Structural)]
pub enum Payload {
    Nothing,
}

/// An input event delivered to the title widget.
#[derive(Clone, Copy, Debug, PartialEq, Eq, Structural)]
pub enum InputEvent {
    /// A key was pressed.
    Key(Key),
    /// The terminal was resized.
    Resize,
}

/// Internal state of the title widget.
pub struct OwnStates {
    /// Whether the widget has input focus.
    pub focus: bool,
}

impl Default for OwnStates {
    /// A fresh widget has no focus.
    fn default() -> (states: OwnStates)
        ensures
            !states.focus,
    {
        OwnStates { focus: false }
    }
}

/// The title widget: display properties plus a focus flag.
pub struct Title {
    pub props: Props,
    pub states: OwnStates,
}

impl Title {
    /// Instantiate a new Title component.
    pub fn new(props: Props) -> (title: Title)
        ensures
            title.props == props,
            !title.states.focus,
    {
        Title { props, states: OwnStates { focus: false } }
    }

    /// The text the widget draws: its configured title, or nothing.
    pub fn display_text(&self) -> (text: String)
        ensures
            text@ == (match self.props.texts.title {
                Some(t) => t@,
                None => Seq::<char>::empty(),
            }),
    {
        match &self.props.texts.title {
            Some(t) => t.clone(),
            None => String::new(),
        }
    }

    /// Replace the widget's properties.
    pub fn update(&mut self, props: Props) -> (msg: Msg)
        ensures
            final(self).props == props,
            final(self).states.focus == old(self).states.focus,
            msg == Msg::NoOp,
    {
        self.props = props;
        // Return None
        Msg::NoOp
    }

    /// Handle an input event: a key press is passed through unchanged, and
    /// nothing else is reported; the widget itself never changes.
    pub fn on(&mut self, ev: InputEvent) -> (msg: Msg)
        ensures
            *final(self) == *old(self),
            msg == (match ev {
                InputEvent::Key(key) => Msg::OnKey(key),
                InputEvent::Resize => Msg::NoOp,
            }),
    {
        if let InputEvent::Key(key) = ev {
            Msg::OnKey(key)
        } else {
            Msg::NoOp
        }
    }

    /// Get current value from component; for this component always nothing.
    pub fn get_value(&self) -> (payload: Payload)
        ensures
            payload == Payload::Nothing,
    {
        Payload::Nothing
    }

    /// Blur component.
    pub fn blur(&mut self)
        ensures
            !final(self).states.focus,
            final(self).props == old(self).props,
    {
        self.states.focus = false;
    }

    /// Active component.
    pub fn active(&mut self)
        ensures
            final(self).states.focus,
            final(self).props == old(self).props,
    {
        self.states.focus = true;
    }
}

} // verus!
