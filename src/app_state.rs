use vstd::prelude::*;

use crate::error_display::{retain_unexpired, unexpired, DisplayError};
use crate::settings::SettingsWindow;

verus! {

/// The tool shown in the central panel.
#[derive(Clone, Copy, Debug, PartialEq, Eq, Structural)]
pub enum CentralPanelTab {
    Jwt,
    ColorPicker,
}

/// The floating windows of the application.
#[derive(Debug)]
pub struct Windows {
    pub settings: SettingsWindow,
}

impl Default for Windows {
    fn default() -> (w: Windows)
        ensures
            !w.settings.show,
            w.settings.error is None,
            w.settings.message is None,
    {
        Windows { settings: SettingsWindow::default() }
    }
}

/// The view of the JWT encoder and decoder tab.
#[derive(Clone, Copy, Debug)]
pub struct JwtUi;

/// The application's own state across frames.
pub struct App {
    pub windows: Windows,
    pub display_errors: Vec<DisplayError>,
}

impl App {
    /// An application with its windows closed and no errors to show.
    pub fn new() -> (a: App)
        ensures
            !a.windows.settings.show,
            a.windows.settings.error is None,
            a.windows.settings.message is None,
            a.display_errors@ == Seq::<DisplayError>::empty(),
    {
        App { windows: Windows::default(), display_errors: Vec::new() }
    }

    /// Moves the errors raised since the last frame, oldest first, behind
    /// those already shown.
    pub fn take_errors(&mut self, raised: &mut Vec<DisplayError>)
        ensures
            final(self).display_errors@ == old(self).display_errors@ + old(raised)@,
            final(raised)@ == Seq::<DisplayError>::empty(),
    {
        self.display_errors.append(raised);
    }

    /// Drops the errors that have been shown long enough at `now`.
    pub fn prune_errors(&mut self, now: u64)
        ensures
            final(self).display_errors@ == unexpired(old(self).display_errors@, now),
    {
        retain_unexpired(&mut self.display_errors, now);
    }
}

} // verus!
