use kubelingo::cli::{Cli, Commands, K8sExercise, TopAction};
use kubelingo::menu::{
    get_db_path, main_menu_action, parse_main_choice, parse_settings_choice, str_eq,
    study_mode_action, trim_str, MainChoice, MainMenuAction, Settings, SettingsChoice, StudyAction,
};

#[test]
fn trim_removes_surrounding_whitespace() {
    assert_eq!(trim_str("  hi \n"), "hi");
    assert_eq!(trim_str("\t1\r\n"), "1");
    assert_eq!(trim_str("no-space"), "no-space");
    assert_eq!(trim_str("inner space\n"), "inner space");
}

#[test]
fn trim_of_blank_input_is_empty() {
    assert_eq!(trim_str(""), "");
    assert_eq!(trim_str(" \t\r\n"), "");
}

#[test]
fn str_eq_compares_characters() {
    assert!(str_eq("abc", "abc"));
    assert!(!str_eq("abc", "abd"));
    assert!(!str_eq("abc", "ab"));
    assert!(str_eq("", ""));
}

#[test]
fn main_menu_choices_follow_the_digits() {
    assert_eq!(parse_main_choice("1\n"), MainChoice::StartStudy);
    assert_eq!(parse_main_choice(" 2 "), MainChoice::Settings);
    assert_eq!(parse_main_choice("3"), MainChoice::Exit);
    assert_eq!(parse_main_choice("4"), MainChoice::Other);
    assert_eq!(parse_main_choice(""), MainChoice::Other);
    assert_eq!(parse_main_choice("11"), MainChoice::Other);
}

#[test]
fn study_mode_needs_a_credential() {
    assert_eq!(
        main_menu_action(MainChoice::StartStudy, false),
        MainMenuAction::PromptForApiKey
    );
    assert_eq!(
        main_menu_action(MainChoice::StartStudy, true),
        MainMenuAction::StartStudyMode
    );
    assert_eq!(main_menu_action(MainChoice::Settings, false), MainMenuAction::OpenSettings);
    assert_eq!(main_menu_action(MainChoice::Exit, true), MainMenuAction::ExitApp);
    assert_eq!(main_menu_action(MainChoice::Other, false), MainMenuAction::InvalidChoice);
}

#[test]
fn settings_menu_choices_follow_the_digits() {
    assert_eq!(parse_settings_choice(" 1\n"), SettingsChoice::ViewKey);
    assert_eq!(parse_settings_choice("2"), SettingsChoice::SetKey);
    assert_eq!(parse_settings_choice("3\r\n"), SettingsChoice::Exit);
    assert_eq!(parse_settings_choice("view"), SettingsChoice::Other);
}

#[test]
fn entered_api_key_is_trimmed_and_stored() {
    let mut settings = Settings::new(None);
    assert!(!settings.api_key_is_set());
    assert!(settings.set_api_key(" SECRET-REDACTED \n"));
    assert!(settings.api_key_is_set());
    assert_eq!(settings.api_key.as_deref(), Some("SECRET-REDACTED"));
}

#[test]
fn blank_api_key_entry_changes_nothing() {
    let mut settings = Settings::new(Some(String::from("kept")));
    assert!(!settings.set_api_key("  \n"));
    assert_eq!(settings.api_key.as_deref(), Some("kept"));
    let mut empty = Settings::new(None);
    assert!(!empty.set_api_key(""));
    assert!(!empty.api_key_is_set());
}

#[test]
fn study_mode_reports_errors_and_empty_stores() {
    assert_eq!(study_mode_action(false, 0), StudyAction::ReportDbError);
    assert_eq!(study_mode_action(false, 3), StudyAction::ReportDbError);
    assert_eq!(study_mode_action(true, 0), StudyAction::ReportNoTopics);
    assert_eq!(study_mode_action(true, 2), StudyAction::SelectTopic);
}

#[test]
fn db_path_is_fixed() {
    assert_eq!(get_db_path(), "kubelingo.db");
}

#[test]
fn dispatch_routes_each_subcommand() {
    assert!(matches!(
        kubelingo::cli::dispatch(Cli { command: Some(Commands::Pty) }),
        TopAction::RunPtySession
    ));
    assert!(matches!(
        kubelingo::cli::dispatch(Cli { command: None }),
        TopAction::ShowMainMenu
    ));
    assert!(matches!(
        kubelingo::cli::dispatch(Cli {
            command: Some(Commands::Kustom { custom_file: Some(String::from("f.yaml")) })
        }),
        TopAction::KustomUnavailable
    ));
    match kubelingo::cli::dispatch(Cli {
        command: Some(Commands::K8s {
            exercise: K8sExercise::Quiz { num: Some(5), category: Some(String::from("pods")) },
        }),
    }) {
        TopAction::RunK8sQuiz { num, category } => {
            assert_eq!(num, Some(5));
            assert_eq!(category.as_deref(), Some("pods"));
        }
        _ => panic!("the quiz subcommand runs the quiz"),
    }
}
