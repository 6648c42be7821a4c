use siren::cli::{Cli, Commands};
use siren::logging::{is_verbose, set_verbose, VerboseFlag};

#[test]
fn cli_fields_are_plain_values() {
    let cli = Cli { command: None, verbose: false, output_json: true };
    assert!(cli.command.is_none());
    assert!(!cli.verbose);
    assert!(cli.output_json);
}

#[test]
fn cli_carries_the_reset_subcommand() {
    let cli = Cli { command: Some(Commands::ResetConfig), verbose: true, output_json: false };
    assert_eq!(cli.command, Some(Commands::ResetConfig));
}

#[test]
fn cli_verbose_option_sets_the_flag() {
    for wanted in [false, true] {
        let cli = Cli { command: None, verbose: wanted, output_json: false };
        let mut flag = VerboseFlag::new();
        set_verbose(&mut flag, cli.verbose);
        assert_eq!(is_verbose(&flag), wanted);
    }
}
