//! State kept by the front end: which snip mode is selected and which of
//! the three actions were requested. The window, buttons and icons around
//! it are presentation and live with the caller; the state transitions
//! are decided here.

use vstd::prelude::*;

verus! {

/// What kind of screenshot the user asked for.
#[derive(Clone, Copy, Debug, PartialEq, Eq, Structural)]
pub enum SnipMode {
    /// A user-drawn rectangle.
    Rectangle,
    /// One window.
    Window,
    /// The whole screen.
    Fullscreen,
}

impl SnipMode {
    /// The label the front end shows for this mode.
    pub fn label(&self) -> (r: &'static str)
        ensures
            *self is Rectangle ==> r@ == "Rectangle"@,
            *self is Window ==> r@ == "Window"@,
            *self is Fullscreen ==> r@ == "Full screen"@,
    {
        match self {
            SnipMode::Rectangle => "Rectangle",
            SnipMode::Window => "Window",
            SnipMode::Fullscreen => "Full screen",
        }
    }
}

/// One input from the front end.
#[derive(Clone, Copy, Debug, PartialEq, Eq, Structural)]
pub enum Message {
    /// Take a new screenshot.
    NewScreenshot,
    /// Save the current screenshot.
    SaveScreenshot,
    /// Copy the current screenshot to the clipboard.
    CopyScreenshot,
    /// Pick a snip mode.
    SelectOption(SnipMode),
}

/// The front end's state.
#[derive(Clone, Copy, Debug, PartialEq, Eq, Structural)]
pub struct App {
    /// A new screenshot was requested.
    pub new_screenshot: bool,
    /// Saving was requested.
    pub save_screenshot: bool,
    /// Copying was requested.
    pub copy_screenshot: bool,
    /// The snip mode currently selected.
    pub selected_option: SnipMode,
}

impl App {
    /// The initial state: nothing requested, rectangle mode selected.
    pub fn new() -> (r: App)
        ensures
            !r.new_screenshot,
            !r.save_screenshot,
            !r.copy_screenshot,
            r.selected_option is Rectangle,
    {
        App {
            new_screenshot: false,
            save_screenshot: false,
            copy_screenshot: false,
            selected_option: SnipMode::Rectangle,
        }
    }

    /// The window title.
    pub fn title(&self) -> (r: String)
        ensures
            r@ == "svwc-snip"@,
    {
        String::from_str("svwc-snip")
    }

    /// Applies one input: selecting a mode records it; the three action
    /// requests change no state here — acting on them is the front end's
    /// business.
    pub fn update(&mut self, message: Message)
        ensures
            match message {
                Message::SelectOption(o) => *final(self) == (App {
                    selected_option: o,
                    ..*old(self)
                }),
                _ => *final(self) == *old(self),
            },
    {
        match message {
            Message::NewScreenshot => {},
            Message::SaveScreenshot => {},
            Message::CopyScreenshot => {},
            Message::SelectOption(option) => {
                self.selected_option = option;
            },
        }
    }
}

} // verus!
