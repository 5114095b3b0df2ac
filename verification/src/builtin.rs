//! The fixed built-in list of maintenance commands.

use vstd::prelude::*;

use crate::catalog::{CmdView, CommandType, UpdateCommand, views};

verus! {

/// The fixed built-in catalog, as a mathematical sequence. Its order is the
/// display order and the order of a full-batch run.
pub open spec fn built_in_catalog() -> Seq<CmdView> {
    seq![
        CmdView {
            name: "Update Homebrew"@,
            command: "brew update && brew upgrade"@,
            command_type: CommandType::Shell,
            icon: ""@,
            description: "Update and upgrade all Homebrew packages"@,
            category: "Package Managers"@,
        },
        CmdView {
            name: "Update npm packages"@,
            command: "npm update && npm fund"@,
            command_type: CommandType::Shell,
            icon: ""@,
            description: "Update npm packages and show funding information"@,
            category: "Package Managers"@,
        },
        CmdView {
            name: "Update bun"@,
            command: "bun update && bun upgrade"@,
            command_type: CommandType::Shell,
            icon: ""@,
            description: "Update bun itself and upgrade to latest version"@,
            category: "Package Managers"@,
        },
        CmdView {
            name: "Update Ruby gems"@,
            command: "gem update"@,
            command_type: CommandType::Shell,
            icon: ""@,
            description: "Update all installed Ruby gems"@,
            category: "Package Managers"@,
        },
        CmdView {
            name: "Update Rust/Cargo packages"@,
            command: "cargo install-update --all"@,
            command_type: CommandType::Shell,
            icon: ""@,
            description: "Update all Rust packages installed via Cargo"@,
            category: "Package Managers"@,
        },
        CmdView {
            name: "Sync and upgrade Doom Emacs"@,
            command: "~/.config/emacs/bin/doom sync && ~/.config/emacs/bin/doom upgrade && ~/.config/emacs/bin/doom doctor"@,
            command_type: CommandType::Shell,
            icon: ""@,
            description: "Sync, upgrade, and run doctor for Doom Emacs"@,
            category: "Development Tools"@,
        },
        CmdView {
            name: "Set Solana config to mainnet-beta"@,
            command: "solana config set --url mainnet-beta"@,
            command_type: CommandType::Shell,
            icon: ""@,
            description: "Configure Solana CLI to use mainnet-beta"@,
            category: "Blockchain"@,
        },
        CmdView {
            name: "Check Solana address"@,
            command: "solana address"@,
            command_type: CommandType::Shell,
            icon: ""@,
            description: "Display the current Solana wallet address"@,
            category: "Blockchain"@,
        },
        CmdView {
            name: "Set Solana config to devnet"@,
            command: "solana config set --url devnet"@,
            command_type: CommandType::Shell,
            icon: ""@,
            description: "Configure Solana CLI to use devnet"@,
            category: "Blockchain"@,
        },
        CmdView {
            name: "Request Solana airdrop"@,
            command: "solana airdrop 5"@,
            command_type: CommandType::Shell,
            icon: ""@,
            description: "Request 5 SOL airdrop on devnet"@,
            category: "Blockchain"@,
        },
        CmdView {
            name: "Check Solana balance"@,
            command: "solana balance"@,
            command_type: CommandType::Shell,
            icon: ""@,
            description: "Check current SOL balance"@,
            category: "Blockchain"@,
        },
        CmdView {
            name: "Handle Site repository"@,
            command: "handle_site_repo"@,
            command_type: CommandType::Custom,
            icon: ""@,
            description: "Clone/update Site repository and install dependencies"@,
            category: "Development"@,
        },
        CmdView {
            name: "Install software updates"@,
            command: "sudo softwareupdate --install --all"@,
            command_type: CommandType::Shell,
            icon: ""@,
            description: "Install all available macOS software updates"@,
            category: "System"@,
        },
        CmdView {
            name: "Run mac-cleanup"@,
            command: "sudo mac-cleanup --force"@,
            command_type: CommandType::Shell,
            icon: ""@,
            description: "Clean up macOS system files and caches"@,
            category: "System"@,
        },
    ]
}

/// The fixed built-in list of maintenance commands, in its stable order.
pub fn get_all_commands() -> (r: Vec<UpdateCommand>)
    ensures
        views(r@) =~= built_in_catalog(),
{
    let mut v: Vec<UpdateCommand> = Vec::new();
    v.push(UpdateCommand::new(
        "Update Homebrew",
        "brew update && brew upgrade",
        CommandType::Shell,
        "",
        "Update and upgrade all Homebrew packages",
        "Package Managers",
    ));
    v.push(UpdateCommand::new(
        "Update npm packages",
        "npm update && npm fund",
        CommandType::Shell,
        "",
        "Update npm packages and show funding information",
        "Package Managers",
    ));
    v.push(UpdateCommand::new(
        "Update bun",
        "bun update && bun upgrade",
        CommandType::Shell,
        "",
        "Update bun itself and upgrade to latest version",
        "Package Managers",
    ));
    v.push(UpdateCommand::new(
        "Update Ruby gems",
        "gem update",
        CommandType::Shell,
        "",
        "Update all installed Ruby gems",
        "Package Managers",
    ));
    v.push(UpdateCommand::new(
        "Update Rust/Cargo packages",
        "cargo install-update --all",
        CommandType::Shell,
        "",
        "Update all Rust packages installed via Cargo",
        "Package Managers",
    ));
    v.push(UpdateCommand::new(
        "Sync and upgrade Doom Emacs",
        "~/.config/emacs/bin/doom sync && ~/.config/emacs/bin/doom upgrade && ~/.config/emacs/bin/doom doctor",
        CommandType::Shell,
        "",
        "Sync, upgrade, and run doctor for Doom Emacs",
        "Development Tools",
    ));
    v.push(UpdateCommand::new(
        "Set Solana config to mainnet-beta",
        "solana config set --url mainnet-beta",
        CommandType::Shell,
        "",
        "Configure Solana CLI to use mainnet-beta",
        "Blockchain",
    ));
    v.push(UpdateCommand::new(
        "Check Solana address",
        "solana address",
        CommandType::Shell,
        "",
        "Display the current Solana wallet address",
        "Blockchain",
    ));
    v.push(UpdateCommand::new(
        "Set Solana config to devnet",
        "solana config set --url devnet",
        CommandType::Shell,
        "",
        "Configure Solana CLI to use devnet",
        "Blockchain",
    ));
    v.push(UpdateCommand::new(
        "Request Solana airdrop",
        "solana airdrop 5",
        CommandType::Shell,
        "",
        "Request 5 SOL airdrop on devnet",
        "Blockchain",
    ));
    v.push(UpdateCommand::new(
        "Check Solana balance",
        "solana balance",
        CommandType::Shell,
        "",
        "Check current SOL balance",
        "Blockchain",
    ));
    v.push(UpdateCommand::new(
        "Handle Site repository",
        "handle_site_repo",
        CommandType::Custom,
        "",
        "Clone/update Site repository and install dependencies",
        "Development",
    ));
    v.push(UpdateCommand::new(
        "Install software updates",
        "sudo softwareupdate --install --all",
        CommandType::Shell,
        "",
        "Install all available macOS software updates",
        "System",
    ));
    v.push(UpdateCommand::new(
        "Run mac-cleanup",
        "sudo mac-cleanup --force",
        CommandType::Shell,
        "",
        "Clean up macOS system files and caches",
        "System",
    ));
    proof {
        assert(views(v@) =~= built_in_catalog());
    }
    v
}

} // verus!
