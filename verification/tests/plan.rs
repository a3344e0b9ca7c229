use system_manager::options::ToSwitch;
use system_manager::plan::{apply_line, needs_privileges, switch_commands, update_line};
use system_manager::Config;

fn config() -> Config {
    Config {
        identity: "laptop".into(),
        nix_path: "/etc/nixos".into(),
    }
}

const NOTICE: &str = "echo 'Sudo perms required for system rebuild.'";
const PROBE: &str = "sudo echo 'Sudo perms given for system rebuild.'";
const HOME: &str = "home-manager switch --flake /etc/nixos#laptop";
const SYSTEM: &str = "sudo nixos-rebuild --option experimental-features 'nix-command flakes pipe-operators' switch --flake /etc/nixos#laptop";
const UPDATE: &str = "nix flake update --flake /etc/nixos";

#[test]
fn home_alone_is_one_command() {
    let commands = switch_commands(&config(), &[ToSwitch::Home], false);
    assert_eq!(commands, vec![HOME.to_string()]);
}

#[test]
fn home_with_update_is_update_then_home() {
    let commands = switch_commands(&config(), &[ToSwitch::Home], true);
    assert_eq!(commands, vec![UPDATE.to_string(), HOME.to_string()]);
}

#[test]
fn system_first_has_privileges_first() {
    let commands = switch_commands(
        &config(),
        &[ToSwitch::System { offline: false }, ToSwitch::Home],
        false,
    );
    assert_eq!(
        commands,
        vec![
            NOTICE.to_string(),
            PROBE.to_string(),
            SYSTEM.to_string(),
            HOME.to_string()
        ]
    );
}

#[test]
fn system_last_has_privileges_first() {
    let commands = switch_commands(
        &config(),
        &[ToSwitch::Home, ToSwitch::Home, ToSwitch::System { offline: false }],
        true,
    );
    assert_eq!(
        commands,
        vec![
            NOTICE.to_string(),
            PROBE.to_string(),
            UPDATE.to_string(),
            HOME.to_string(),
            HOME.to_string(),
            SYSTEM.to_string()
        ]
    );
}

#[test]
fn privileges_are_asked_for_once() {
    let commands = switch_commands(
        &config(),
        &[
            ToSwitch::System { offline: false },
            ToSwitch::System { offline: true },
        ],
        false,
    );
    assert_eq!(commands.len(), 4);
    assert_eq!(commands.iter().filter(|c| c.as_str() == NOTICE).count(), 1);
    assert_eq!(commands.iter().filter(|c| c.as_str() == PROBE).count(), 1);
    assert_eq!(commands[2], SYSTEM);
    assert_eq!(commands[3], format!("{SYSTEM} --offline"));
}

#[test]
fn targets_are_neither_sorted_nor_merged() {
    let commands = switch_commands(
        &config(),
        &[ToSwitch::Home, ToSwitch::System { offline: true }, ToSwitch::Home],
        false,
    );
    assert_eq!(
        commands[2..],
        [
            HOME.to_string(),
            format!("{SYSTEM} --offline"),
            HOME.to_string()
        ]
    );
}

#[test]
fn offline_flag_is_appended() {
    let offline = apply_line(&config(), ToSwitch::System { offline: true });
    let online = apply_line(&config(), ToSwitch::System { offline: false });
    assert_eq!(online, SYSTEM);
    assert_eq!(offline, format!("{online} --offline"));
    assert!(offline.contains(" --offline"));
    assert!(!online.contains("--offline"));
}

#[test]
fn home_command_has_no_offline_flag() {
    let home = apply_line(&config(), ToSwitch::Home);
    assert_eq!(home, HOME);
    assert!(!home.contains("--offline"));
    assert!(!home.contains("sudo"));
}

#[test]
fn update_line_names_the_path() {
    assert_eq!(update_line(&config()), UPDATE);
}

#[test]
fn nothing_asked_is_no_command() {
    assert!(switch_commands(&config(), &[], false).is_empty());
}

#[test]
fn update_alone_is_one_command() {
    assert_eq!(
        switch_commands(&config(), &[], true),
        vec![UPDATE.to_string()]
    );
}

#[test]
fn identity_and_path_are_not_escaped() {
    let odd = Config {
        identity: "a b;c".into(),
        nix_path: "/my flake/$HOME".into(),
    };
    assert_eq!(
        switch_commands(&odd, &[ToSwitch::Home], true),
        vec![
            "nix flake update --flake /my flake/$HOME".to_string(),
            "home-manager switch --flake /my flake/$HOME#a b;c".to_string()
        ]
    );
}

#[test]
fn empty_identity_and_path_are_taken_as_they_are() {
    let empty = Config {
        identity: String::new(),
        nix_path: String::new(),
    };
    assert_eq!(
        switch_commands(&empty, &[ToSwitch::Home], false),
        vec!["home-manager switch --flake #".to_string()]
    );
}

#[test]
fn privileges_are_needed_for_the_system_only() {
    assert!(!needs_privileges(&[]));
    assert!(!needs_privileges(&[ToSwitch::Home, ToSwitch::Home]));
    assert!(needs_privileges(&[ToSwitch::System { offline: true }]));
    assert!(needs_privileges(&[
        ToSwitch::Home,
        ToSwitch::System { offline: false }
    ]));
}
