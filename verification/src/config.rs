//! The settings that the viewer reads: the name of the theme and whether
//! rows are numbered.

use vstd::prelude::*;

verus! {

/// The theme used where none is set.
pub const DEFAULT_THEME: &'static str = "Monokai";

/// How the text looks.
#[derive(Debug, Clone)]
pub struct AppearanceConfig {
    /// The name of the theme.
    pub theme: String,
}

/// Another name for the settings of how the text looks.
pub type NanoConfig = AppearanceConfig;

/// How the rows are laid out.
#[derive(Debug, Clone, Copy, PartialEq, Eq, Structural)]
pub struct EditorConfiguration {
    /// Whether each row is shown with its number.
    pub line_numbers: bool,
}

impl Default for EditorConfiguration {
    fn default() -> (settings: EditorConfiguration)
        ensures
            !settings.line_numbers,
    {
        EditorConfiguration { line_numbers: false }
    }
}

/// All settings.
#[derive(Debug, Clone)]
pub struct NanoConfiguration {
    pub appearance: AppearanceConfig,
    pub editor: EditorConfiguration,
}

impl Default for NanoConfiguration {
    fn default() -> (settings: NanoConfiguration)
        ensures
            settings.appearance.theme@ == DEFAULT_THEME@,
            !settings.editor.line_numbers,
    {
        NanoConfiguration {
            appearance: AppearanceConfig { theme: String::from_str(DEFAULT_THEME) },
            editor: EditorConfiguration { line_numbers: false },
        }
    }
}

impl NanoConfiguration {
    /// The settings made of what was read: a setting that was not found
    /// keeps its default, `DEFAULT_THEME` and no row numbers.
    pub fn load(theme: Option<String>, line_numbers: Option<bool>) -> (settings: NanoConfiguration)
        ensures
            theme matches Some(name) ==> settings.appearance.theme == name,
            theme is None ==> settings.appearance.theme@ == DEFAULT_THEME@,
            settings.editor.line_numbers == (line_numbers == Some(true)),
    {
        let theme = match theme {
            Some(name) => name,
            None => String::from_str(DEFAULT_THEME),
        };
        let line_numbers = match line_numbers {
            Some(on) => on,
            None => false,
        };
        NanoConfiguration {
            appearance: AppearanceConfig { theme },
            editor: EditorConfiguration { line_numbers },
        }
    }

    /// The name of the theme.
    pub fn theme(&self) -> (name: &str)
        ensures
            name@ == self.appearance.theme@,
    {
        self.appearance.theme.as_str()
    }

    /// Whether rows are numbered.
    pub fn turn_on_line_numbers(&self) -> (on: bool)
        ensures
            on == self.editor.line_numbers,
    {
        self.editor.line_numbers
    }
}

} // verus!
