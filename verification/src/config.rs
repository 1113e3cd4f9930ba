//! The settings that persist between runs, and the choices that the settings
//! page offers by position.

use vstd::prelude::*;
use vstd::string::StringExecFns;

verus! {

#[verifier::external_type_specification]
#[verifier::external_body]
pub struct ExPathBuf(std::path::PathBuf);

pub assume_specification[ <std::path::PathBuf as Clone>::clone ](path: &std::path::PathBuf) -> (copy:
    std::path::PathBuf)
    ensures
        copy == *path,
;

/// The colour scheme of the application.
#[derive(Clone, Copy, Debug, PartialEq, Eq, Structural)]
pub enum AppTheme {
    Dark,
    Light,
    System,
}

impl Default for AppTheme {
    fn default() -> (theme: Self)
        ensures
            theme == AppTheme::System,
    {
        AppTheme::System
    }
}

/// Whether a part of the window is shown.
#[derive(Clone, Copy, Debug, PartialEq, Eq, Structural)]
pub enum ShowState {
    Show,
    Hide,
}

impl Default for ShowState {
    fn default() -> (state: Self)
        ensures
            state == ShowState::Show,
    {
        ShowState::Show
    }
}

impl ShowState {
    /// The choice at position `index` of [`ShowState::all_labels`]; a position
    /// past the end gives the default.
    pub open spec fn at(index: nat) -> Self {
        if index == 1 {
            ShowState::Hide
        } else {
            ShowState::Show
        }
    }

    /// The position of this choice in [`ShowState::all_labels`].
    pub open spec fn position(self) -> nat {
        match self {
            ShowState::Show => 0,
            ShowState::Hide => 1,
        }
    }

    /// The name under which the label of this choice is translated.
    pub open spec fn label(self) -> Seq<char> {
        match self {
            ShowState::Show => "show"@,
            ShowState::Hide => "hide"@,
        }
    }

    /// The translation keys of the labels of all choices, in the order in
    /// which a drop-down offers them.
    pub fn all_labels() -> (labels: Vec<String>)
        ensures
            labels@.len() == 2,
            forall|i: int| 0 <= i < 2 ==> (#[trigger] labels@[i])@ == Self::at(i as nat).label(),
    {
        let mut labels: Vec<String> = Vec::new();
        labels.push(String::from_str("show"));
        labels.push(String::from_str("hide"));
        labels
    }

    pub fn from_index(index: usize) -> (state: Self)
        ensures
            state == Self::at(index as nat),
    {
        match index {
            0 => ShowState::Show,
            1 => ShowState::Hide,
            _ => ShowState::default(),
        }
    }

    pub fn to_index(self) -> (index: usize)
        ensures
            index == self.position(),
            index < 2,
    {
        match self {
            ShowState::Show => 0,
            ShowState::Hide => 1,
        }
    }

    /// A choice is found again at its own position.
    pub proof fn lemma_index_round_trip(self)
        ensures
            Self::at(self.position()) == self,
    {
    }

    /// A position of the drop-down stands for the choice that has it.
    pub proof fn lemma_position_round_trip(index: nat)
        requires
            index < 2,
        ensures
            Self::at(index).position() == index,
    {
    }
}

/// A yes-or-no setting.
#[derive(Clone, Copy, Debug, PartialEq, Eq, Structural)]
pub enum BoolState {
    Yes,
    No,
}

impl Default for BoolState {
    fn default() -> (state: Self)
        ensures
            state == BoolState::Yes,
    {
        BoolState::Yes
    }
}

impl BoolState {
    /// The choice at position `index` of [`BoolState::all_labels`]; a position
    /// past the end gives the default.
    pub open spec fn at(index: nat) -> Self {
        if index == 1 {
            BoolState::No
        } else {
            BoolState::Yes
        }
    }

    /// The position of this choice in [`BoolState::all_labels`].
    pub open spec fn position(self) -> nat {
        match self {
            BoolState::Yes => 0,
            BoolState::No => 1,
        }
    }

    /// The name under which the label of this choice is translated.
    pub open spec fn label(self) -> Seq<char> {
        match self {
            BoolState::Yes => "yes"@,
            BoolState::No => "no"@,
        }
    }

    /// The translation keys of the labels of all choices, in the order in
    /// which a drop-down offers them.
    pub fn all_labels() -> (labels: Vec<String>)
        ensures
            labels@.len() == 2,
            forall|i: int| 0 <= i < 2 ==> (#[trigger] labels@[i])@ == Self::at(i as nat).label(),
    {
        let mut labels: Vec<String> = Vec::new();
        labels.push(String::from_str("yes"));
        labels.push(String::from_str("no"));
        labels
    }

    pub fn from_index(index: usize) -> (state: Self)
        ensures
            state == Self::at(index as nat),
    {
        match index {
            0 => BoolState::Yes,
            1 => BoolState::No,
            _ => BoolState::default(),
        }
    }

    pub fn to_index(self) -> (index: usize)
        ensures
            index == self.position(),
            index < 2,
    {
        match self {
            BoolState::Yes => 0,
            BoolState::No => 1,
        }
    }

    /// A choice is found again at its own position.
    pub proof fn lemma_index_round_trip(self)
        ensures
            Self::at(self.position()) == self,
    {
    }

    /// A position of the drop-down stands for the choice that has it.
    pub proof fn lemma_position_round_trip(index: nat)
        requires
            index < 2,
        ensures
            Self::at(index).position() == index,
    {
    }
}

/// What the settings page can ask for.
#[derive(Clone, Debug, PartialEq, Eq)]
pub enum ConfigInput {
    /// Choose the theme at this position of the theme list.
    UpdateTheme(usize),
    /// Show or hide the formatting bar.
    HelperHeaderBarShowState(ShowState),
    /// Show or hide the status bar.
    StatusBarShowState(ShowState),
    /// Whether the file that was open last is opened at start.
    OpenLastFile(BoolState),
    /// Whether the editor and the preview scroll together.
    ScrollbarSync(BoolState),
}

/// The settings of the application.
#[derive(Clone, Debug, PartialEq, Eq)]
pub struct CedillaConfig {
    pub app_theme: AppTheme,
    pub vault_path: String,
    pub show_helper_header_bar: ShowState,
    pub show_status_bar: ShowState,
    pub last_navbar_showstate: ShowState,
    pub last_preview_showstate: ShowState,
    pub open_last_file: BoolState,
    pub last_open_file: Option<std::path::PathBuf>,
    pub scrollbar_sync: BoolState,
}

impl CedillaConfig {
    /// The settings of a first run with the vault at `vault_path`.
    pub fn with_vault_path(vault_path: String) -> (config: Self)
        ensures
            config.app_theme == AppTheme::System,
            config.vault_path == vault_path,
            config.show_helper_header_bar == ShowState::Show,
            config.show_status_bar == ShowState::Show,
            config.last_navbar_showstate == ShowState::Show,
            config.last_preview_showstate == ShowState::Show,
            config.open_last_file == BoolState::Yes,
            config.last_open_file is None,
            config.scrollbar_sync == BoolState::Yes,
    {
        CedillaConfig {
            app_theme: AppTheme::default(),
            vault_path,
            show_helper_header_bar: ShowState::default(),
            show_status_bar: ShowState::default(),
            last_navbar_showstate: ShowState::default(),
            last_preview_showstate: ShowState::default(),
            open_last_file: BoolState::default(),
            last_open_file: None,
            scrollbar_sync: BoolState::default(),
        }
    }

    /// The settings after the settings page asked for `input`, and whether a
    /// theme was chosen, which is then at the position returned.
    pub fn apply(&mut self, input: ConfigInput) -> (theme: Option<usize>)
        ensures
            match input {
                ConfigInput::UpdateTheme(index) => {
                    &&& theme == Some(index)
                    &&& final(self).app_theme == theme_at(index as nat)
                    &&& *final(self) == (CedillaConfig { app_theme: final(self).app_theme, ..*old(self) })
                },
                ConfigInput::HelperHeaderBarShowState(state) => {
                    &&& theme is None
                    &&& *final(self) == (CedillaConfig { show_helper_header_bar: state, ..*old(self) })
                },
                ConfigInput::StatusBarShowState(state) => {
                    &&& theme is None
                    &&& *final(self) == (CedillaConfig { show_status_bar: state, ..*old(self) })
                },
                ConfigInput::OpenLastFile(state) => {
                    &&& theme is None
                    &&& *final(self) == (CedillaConfig { open_last_file: state, ..*old(self) })
                },
                ConfigInput::ScrollbarSync(state) => {
                    &&& theme is None
                    &&& *final(self) == (CedillaConfig { scrollbar_sync: state, ..*old(self) })
                },
            },
    {
        match input {
            ConfigInput::UpdateTheme(index) => {
                self.app_theme = theme_from_index(index);
                Some(index)
            },
            ConfigInput::HelperHeaderBarShowState(state) => {
                self.show_helper_header_bar = state;
                None
            },
            ConfigInput::StatusBarShowState(state) => {
                self.show_status_bar = state;
                None
            },
            ConfigInput::OpenLastFile(state) => {
                self.open_last_file = state;
                None
            },
            ConfigInput::ScrollbarSync(state) => {
                self.scrollbar_sync = state;
                None
            },
        }
    }
}

/// The theme at position `index` of the theme list; a position past the end
/// follows the system.
pub open spec fn theme_at(index: nat) -> AppTheme {
    if index == 1 {
        AppTheme::Dark
    } else if index == 2 {
        AppTheme::Light
    } else {
        AppTheme::System
    }
}

/// The position of a theme in the theme list.
pub open spec fn theme_position(theme: AppTheme) -> nat {
    match theme {
        AppTheme::System => 0,
        AppTheme::Dark => 1,
        AppTheme::Light => 2,
    }
}

/// The position at which the settings page shows `theme` as chosen.
pub fn theme_index(theme: AppTheme) -> (index: usize)
    ensures
        index == theme_position(theme),
        theme_at(index as nat) == theme,
{
    match theme {
        AppTheme::Dark => 1,
        AppTheme::Light => 2,
        AppTheme::System => 0,
    }
}

/// The theme that the settings page offers at position `index`.
pub fn theme_from_index(index: usize) -> (theme: AppTheme)
    ensures
        theme == theme_at(index as nat),
{
    match index {
        1 => AppTheme::Dark,
        2 => AppTheme::Light,
        _ => AppTheme::System,
    }
}

} // verus!
