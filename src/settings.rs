use vstd::prelude::*;

verus! {

/// The settings window: whether it is shown, and the one error or one
/// message that it reports (never both).
#[derive(Debug)]
pub struct SettingsWindow {
    pub show: bool,
    pub error: Option<String>,
    pub message: Option<String>,
}

impl Default for SettingsWindow {
    fn default() -> (w: SettingsWindow)
        ensures
            !w.show,
            w.error is None,
            w.message is None,
    {
        SettingsWindow { show: false, error: None, message: None }
    }
}

impl SettingsWindow {
    /// Opens a closed window, or closes an open one; closing clears the
    /// error and the message.
    pub fn toggle(&mut self)
        ensures
            final(self).show == !old(self).show,
            final(self).show ==> final(self).error == old(self).error && final(self).message
                == old(self).message,
            !final(self).show ==> final(self).error is None && final(self).message is None,
    {
        self.show = !self.show;
        if !self.show {
            self.clear_error();
            self.clear_message();
        }
    }

    pub fn is_open(&self) -> (r: bool)
        ensures
            r == self.show,
    {
        self.show
    }

    /// Closes the window, as its close button does: the error and the
    /// message go with it.
    pub fn close(&mut self)
        ensures
            !final(self).show,
            final(self).error is None,
            final(self).message is None,
    {
        self.show = false;
        self.clear_error();
        self.clear_message();
    }

    /// Reports `error`, replacing any message.
    pub fn set_error(&mut self, error: String)
        ensures
            final(self).show == old(self).show,
            final(self).error == Some(error),
            final(self).message is None,
    {
        self.clear_message();
        self.error = Some(error);
    }

    pub fn clear_error(&mut self)
        ensures
            final(self).show == old(self).show,
            final(self).error is None,
            final(self).message == old(self).message,
    {
        self.error = None;
    }

    /// Reports `message`, replacing any error.
    pub fn set_message(&mut self, message: String)
        ensures
            final(self).show == old(self).show,
            final(self).message == Some(message),
            final(self).error is None,
    {
        self.clear_error();
        self.message = Some(message);
    }

    pub fn clear_message(&mut self)
        ensures
            final(self).show == old(self).show,
            final(self).message is None,
            final(self).error == old(self).error,
    {
        self.message = None;
    }
}

} // verus!
