//! The session store: the current project, the settings document and the
//! plugin registry, each owned on its own so that a shell can guard each
//! behind a lock of its own.
use crate::plugins::PluginRegistry;
use crate::project::{ProjectSlot, ProjectView};
use vstd::prelude::*;
use vstd::string::*;

verus! {

/// The settings a session starts with.
pub open spec fn default_settings_text() -> Seq<char> {
    "{\"theme\":\"dark\",\"autoSave\":true}"@
}

/// The settings document, held as its JSON text and replaced whole.
pub struct Settings {
    document: String,
}

impl View for Settings {
    type V = Seq<char>;

    closed spec fn view(&self) -> Seq<char> {
        self.document@
    }
}

impl Settings {
    /// The default settings.
    pub fn new() -> (r: Settings)
        ensures
            r@ == default_settings_text(),
    {
        Settings { document: String::from_str("{\"theme\":\"dark\",\"autoSave\":true}") }
    }

    /// A copy of the settings document.
    pub fn settings_get(&self) -> (r: String)
        ensures
            r@ == self@,
    {
        self.document.clone()
    }

    /// Replaces the whole settings document by `document`.
    pub fn settings_update(&mut self, document: String)
        ensures
            final(self)@ == document@,
    {
        self.document = document;
    }
}

/// Everything a session holds.
pub struct AppState {
    pub current_project: ProjectSlot,
    pub settings: Settings,
    pub plugins: PluginRegistry,
}

impl AppState {
    /// A session with no project, the default settings and no plugins.
    pub fn new() -> (r: AppState)
        ensures
            r.current_project@ == None::<ProjectView>,
            r.settings@ == default_settings_text(),
            r.plugins.wf(),
            r.plugins@ == Seq::<crate::plugins::PluginDescriptor>::empty(),
    {
        AppState { current_project: ProjectSlot::new(), settings: Settings::new(), plugins: PluginRegistry::new() }
    }
}

impl Default for AppState {
    fn default() -> (r: AppState)
        ensures
            r.current_project@ == None::<ProjectView>,
            r.settings@ == default_settings_text(),
            r.plugins.wf(),
            r.plugins@ == Seq::<crate::plugins::PluginDescriptor>::empty(),
    {
        AppState::new()
    }
}

} // verus!
