use nudge::builtin::get_all_commands;
use nudge::catalog::{
    add_command, get_all_categories, get_commands_by_category, remove_command, CommandType,
    UpdateCommand,
};

fn entry(name: &str, category: &str) -> UpdateCommand {
    UpdateCommand::new(name, "true", CommandType::Shell, "", "an entry", category)
}

#[test]
fn built_in_list_is_stable() {
    let commands = get_all_commands();
    assert_eq!(commands.len(), 14);
    assert_eq!(commands[0].name, "Update Homebrew");
    assert_eq!(commands[0].command, "brew update && brew upgrade");
    assert!(matches!(commands[0].command_type, CommandType::Shell));
    assert_eq!(commands[1].name, "Update npm packages");
    assert_eq!(commands[5].name, "Sync and upgrade Doom Emacs");
    assert_eq!(commands[6].name, "Set Solana config to mainnet-beta");
    assert_eq!(commands[7].name, "Check Solana address");
    assert_eq!(commands[8].name, "Set Solana config to devnet");
    assert_eq!(commands[9].name, "Request Solana airdrop");
    assert_eq!(commands[10].name, "Check Solana balance");
    assert_eq!(commands[11].name, "Handle Site repository");
    assert_eq!(commands[11].command, "handle_site_repo");
    assert!(matches!(commands[11].command_type, CommandType::Custom));
    assert_eq!(commands[12].name, "Install software updates");
    assert_eq!(commands[13].name, "Run mac-cleanup");
}

#[test]
fn add_appends_at_the_end() {
    let mut commands = get_all_commands();
    add_command(&mut commands, entry("Extra task", "System"));
    assert_eq!(commands.len(), 15);
    assert_eq!(commands[14].name, "Extra task");
    assert_eq!(commands[0].name, "Update Homebrew");
}

#[test]
fn remove_keeps_survivors_in_order() {
    let mut commands = get_all_commands();
    remove_command(&mut commands, "Update npm packages");
    assert_eq!(commands.len(), 13);
    assert_eq!(commands[0].name, "Update Homebrew");
    assert_eq!(commands[1].name, "Update bun");
    assert_eq!(commands[2].name, "Update Ruby gems");
    assert_eq!(commands[12].name, "Run mac-cleanup");
    for c in &commands {
        assert_ne!(c.name, "Update npm packages");
    }
}

#[test]
fn remove_takes_every_match_and_tolerates_absence() {
    let mut commands = vec![entry("a", "X"), entry("b", "X"), entry("a", "Y"), entry("c", "X")];
    remove_command(&mut commands, "a");
    assert_eq!(commands.len(), 2);
    assert_eq!(commands[0].name, "b");
    assert_eq!(commands[1].name, "c");
    remove_command(&mut commands, "not there");
    assert_eq!(commands.len(), 2);
}

#[test]
fn filter_by_category_is_exact_and_ordered() {
    let commands = get_all_commands();
    let blockchain = get_commands_by_category(&commands, "Blockchain");
    assert_eq!(blockchain.len(), 5);
    assert_eq!(blockchain[0].name, "Set Solana config to mainnet-beta");
    assert_eq!(blockchain[4].name, "Check Solana balance");
    let none = get_commands_by_category(&commands, "blockchain");
    assert_eq!(none.len(), 0);
}

#[test]
fn categories_are_sorted_and_deduplicated() {
    let commands = vec![
        entry("one", "System"),
        entry("two", "Blockchain"),
        entry("three", "System"),
        entry("four", "Package Managers"),
    ];
    let cats = get_all_categories(&commands);
    assert_eq!(cats, vec!["Blockchain", "Package Managers", "System"]);
}

#[test]
fn categories_of_the_built_in_catalog() {
    let commands = get_all_commands();
    let cats = get_all_categories(&commands);
    assert_eq!(
        cats,
        vec!["Blockchain", "Development", "Development Tools", "Package Managers", "System"]
    );
}

#[test]
fn categories_of_an_empty_catalog() {
    let commands: Vec<UpdateCommand> = Vec::new();
    let cats = get_all_categories(&commands);
    assert!(cats.is_empty());
}
