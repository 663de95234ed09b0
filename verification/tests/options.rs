//! Output-mode parsing and option merging for command-line consumers.

use core::str::FromStr;

use solido_core::config::{
    AnkerOpts, AnkerSubCommand, ConfigFile, CreateAnkerOpts, OutputMode, ShowAnkerOpts,
};

fn config_file() -> ConfigFile {
    ConfigFile {
        solido_program_id: Some("config-solido-program".to_string()),
        solido_address: Some("config-solido-address".to_string()),
        anker_program_id: Some("config-anker-program".to_string()),
        anker_address: None,
    }
}

#[test]
fn output_mode_from_str() {
    assert_eq!(OutputMode::from_str("text"), Ok(OutputMode::Text));
    assert_eq!(OutputMode::from_str("json"), Ok(OutputMode::Json));
    assert_eq!(
        OutputMode::from_str("yaml"),
        Err("Invalid output mode, expected 'text' or 'json'.")
    );
    // The trait impl forwards to the contracted parser.
    assert_eq!(OutputMode::parse("text"), Ok(OutputMode::Text));
    assert_eq!(OutputMode::parse("json"), Ok(OutputMode::Json));
    assert_eq!(
        OutputMode::parse(""),
        Err("Invalid output mode, expected 'text' or 'json'.")
    );
    assert_eq!(
        OutputMode::parse("TEXT"),
        Err("Invalid output mode, expected 'text' or 'json'.")
    );
}

#[test]
fn merge_prefers_command_line_values() {
    let mut opts = AnkerOpts {
        subcommand: AnkerSubCommand::Create(CreateAnkerOpts {
            solido_program_id: Some("cli-solido-program".to_string()),
            solido_address: None,
            anker_program_id: None,
        }),
    };
    let config = config_file();
    opts.merge_with_config_and_environment(Some(&config));
    match opts.subcommand {
        AnkerSubCommand::Create(merged) => {
            // A value given on the command line wins.
            assert_eq!(merged.solido_program_id, Some("cli-solido-program".to_string()));
            // Absent values fall back to the configuration file.
            assert_eq!(merged.solido_address, Some("config-solido-address".to_string()));
            assert_eq!(merged.anker_program_id, Some("config-anker-program".to_string()));
        },
        AnkerSubCommand::Show(_) => panic!("subcommand changed"),
    }
}

#[test]
fn merge_without_config_changes_nothing() {
    let mut opts = AnkerOpts {
        subcommand: AnkerSubCommand::Show(ShowAnkerOpts {
            anker_program_id: None,
            anker_address: Some("cli-anker-address".to_string()),
        }),
    };
    opts.merge_with_config_and_environment(None);
    match opts.subcommand {
        AnkerSubCommand::Show(merged) => {
            assert_eq!(merged.anker_program_id, None);
            assert_eq!(merged.anker_address, Some("cli-anker-address".to_string()));
        },
        AnkerSubCommand::Create(_) => panic!("subcommand changed"),
    }
}

#[test]
fn merge_show_leaves_absent_config_entries_absent() {
    let mut opts = AnkerOpts {
        subcommand: AnkerSubCommand::Show(ShowAnkerOpts {
            anker_program_id: None,
            anker_address: None,
        }),
    };
    let config = config_file();
    opts.merge_with_config_and_environment(Some(&config));
    match opts.subcommand {
        AnkerSubCommand::Show(merged) => {
            assert_eq!(merged.anker_program_id, Some("config-anker-program".to_string()));
            // The configuration file has no entry either: stays absent.
            assert_eq!(merged.anker_address, None);
        },
        AnkerSubCommand::Create(_) => panic!("subcommand changed"),
    }
}
