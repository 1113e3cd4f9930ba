use cedilla::config::{
    theme_from_index, theme_index, AppTheme, BoolState, CedillaConfig, ConfigInput, ShowState,
};

#[test]
fn show_state_indices() {
    assert_eq!(ShowState::from_index(0), ShowState::Show);
    assert_eq!(ShowState::from_index(1), ShowState::Hide);
    assert_eq!(ShowState::from_index(2), ShowState::Show);
    assert_eq!(ShowState::from_index(usize::MAX), ShowState::Show);
    assert_eq!(ShowState::Show.to_index(), 0);
    assert_eq!(ShowState::Hide.to_index(), 1);
}

#[test]
fn bool_state_indices() {
    assert_eq!(BoolState::from_index(0), BoolState::Yes);
    assert_eq!(BoolState::from_index(1), BoolState::No);
    assert_eq!(BoolState::from_index(7), BoolState::Yes);
    assert_eq!(BoolState::Yes.to_index(), 0);
    assert_eq!(BoolState::No.to_index(), 1);
}

#[test]
fn index_round_trips() {
    for state in [ShowState::Show, ShowState::Hide] {
        assert_eq!(ShowState::from_index(state.to_index()), state);
    }
    for state in [BoolState::Yes, BoolState::No] {
        assert_eq!(BoolState::from_index(state.to_index()), state);
    }
    for theme in [AppTheme::System, AppTheme::Dark, AppTheme::Light] {
        assert_eq!(theme_from_index(theme_index(theme)), theme);
    }
}

#[test]
fn labels_follow_the_indices() {
    assert_eq!(ShowState::all_labels(), vec![String::from("show"), String::from("hide")]);
    assert_eq!(BoolState::all_labels(), vec![String::from("yes"), String::from("no")]);
}

#[test]
fn defaults() {
    assert_eq!(AppTheme::default(), AppTheme::System);
    assert_eq!(ShowState::default(), ShowState::Show);
    assert_eq!(BoolState::default(), BoolState::Yes);
    let config = CedillaConfig::with_vault_path(String::from("/data/vault"));
    assert_eq!(config.vault_path, "/data/vault");
    assert_eq!(config.app_theme, AppTheme::System);
    assert_eq!(config.open_last_file, BoolState::Yes);
    assert_eq!(config.last_open_file, None);
    assert_eq!(config.show_status_bar, ShowState::Show);
}

#[test]
fn inputs_change_one_setting() {
    let first = CedillaConfig::with_vault_path(String::from("v"));
    let mut config = first.clone();
    assert_eq!(config.apply(ConfigInput::UpdateTheme(1)), Some(1));
    assert_eq!(config.app_theme, AppTheme::Dark);
    assert_eq!(config.apply(ConfigInput::UpdateTheme(2)), Some(2));
    assert_eq!(config.app_theme, AppTheme::Light);
    assert_eq!(config.apply(ConfigInput::UpdateTheme(9)), Some(9));
    assert_eq!(config, first);
    assert_eq!(config.apply(ConfigInput::HelperHeaderBarShowState(ShowState::Hide)), None);
    assert_eq!(config.show_helper_header_bar, ShowState::Hide);
    assert_eq!(config.apply(ConfigInput::StatusBarShowState(ShowState::Hide)), None);
    assert_eq!(config.show_status_bar, ShowState::Hide);
    assert_eq!(config.apply(ConfigInput::OpenLastFile(BoolState::No)), None);
    assert_eq!(config.open_last_file, BoolState::No);
    assert_eq!(config.apply(ConfigInput::ScrollbarSync(BoolState::No)), None);
    assert_eq!(config.scrollbar_sync, BoolState::No);
    assert_eq!(config.last_navbar_showstate, ShowState::Show);
}
