//! Tests of the pure helpers behind the tool's commands.

use ally_lib::commands::{
    fix_separators, EnvironmentCommand, FixPathSeparatorsCommand, GitIncomingCommand,
    GitOutgoingCommand,
};
use ally_lib::git::{
    current_branch_args, git_alias_args, log_args, log_range, pair_branch_names, trim_blank,
    upstream_branch_args, Alias, AliasConfig, AliasInfo, AliasScope, BranchPair,
};

#[test]
fn separators_become_backslashes() {
    assert_eq!(fix_separators("a/b/c", true), "a\\b\\c");
    assert_eq!(fix_separators("a\\b", true), "a\\b");
}

#[test]
fn separators_become_forward_slashes() {
    assert_eq!(fix_separators("a\\b\\c", false), "a/b/c");
    assert_eq!(fix_separators("a/b", false), "a/b");
    assert_eq!(fix_separators("", false), "");
}

#[test]
fn fix_path_separators_command_keeps_its_path() {
    let with_path = FixPathSeparatorsCommand::new(Some("x/y".to_string()));
    assert_eq!(with_path.path, Some("x/y".to_string()));
    let without = FixPathSeparatorsCommand::new(None);
    assert_eq!(without.path, None);
}

#[test]
fn other_commands_construct() {
    let _ = GitIncomingCommand::new();
    let _ = GitOutgoingCommand::new();
    let env = EnvironmentCommand::new(Some(".".to_string()));
    assert_eq!(env.path, Some(".".to_string()));
}

#[test]
fn trimming_strips_blank_edges() {
    assert_eq!(trim_blank(" \tmain\n"), "main");
    assert_eq!(trim_blank("main"), "main");
    assert_eq!(trim_blank("  \n"), "");
    assert_eq!(trim_blank("a b"), "a b");
}

#[test]
fn branch_names_pair_only_when_both_present() {
    let pair = pair_branch_names(
        Some("main\n".to_string()),
        Some("origin/main\n".to_string()),
    )
    .unwrap();
    assert_eq!(
        pair,
        BranchPair::new("main".to_string(), "origin/main".to_string())
    );
    assert_eq!(pair_branch_names(None, Some("x".to_string())), None);
    assert_eq!(pair_branch_names(Some("x".to_string()), None), None);
    assert_eq!(pair_branch_names(None, None), None);
}

#[test]
fn alias_args_quote_git_commands() {
    let alias = Alias::new(
        AliasScope::Global,
        "st".to_string(),
        AliasInfo::GitCommand("status --short".to_string()),
    );
    assert_eq!(
        git_alias_args(&alias),
        vec![
            "config".to_string(),
            "--global".to_string(),
            "alias.st".to_string(),
            "\"status --short\"".to_string(),
        ]
    );
}

#[test]
fn alias_args_prefix_python_commands() {
    let alias = Alias::new(
        AliasScope::Local,
        "lint".to_string(),
        AliasInfo::PythonCommand("lint.py".to_string()),
    );
    assert_eq!(
        git_alias_args(&alias),
        vec![
            "config".to_string(),
            "--local".to_string(),
            "alias.lint".to_string(),
            "\"!python lint.py\"".to_string(),
        ]
    );
}

#[test]
fn alias_args_cover_all_scopes() {
    for (scope, flag) in [
        (AliasScope::Global, "--global"),
        (AliasScope::System, "--system"),
        (AliasScope::Local, "--local"),
        (AliasScope::Worktree, "--worktree"),
    ] {
        let alias = Alias::new(
            scope,
            "a".to_string(),
            AliasInfo::AliasCommand("b".to_string()),
        );
        assert_eq!(git_alias_args(&alias)[1], flag);
    }
}

#[test]
fn log_range_joins_branches() {
    assert_eq!(log_range("main", "origin/main"), "main..origin/main");
}

#[test]
fn git_argument_vectors_are_exact() {
    assert_eq!(
        current_branch_args(),
        vec!["rev-parse", "--abbrev-ref", "--symbolic-full-name", "HEAD"]
    );
    assert_eq!(
        upstream_branch_args(),
        vec![
            "rev-parse",
            "--abbrev-ref",
            "--symbolic-full-name",
            "@{upstream}"
        ]
    );
    assert_eq!(
        log_args("a..b".to_string()),
        vec!["log", "--no-merges", "a..b"]
    );
}

#[test]
fn alias_config_round_trips() {
    let alias = Alias::new(
        AliasScope::Worktree,
        "co".to_string(),
        AliasInfo::GitCommand("checkout".to_string()),
    );
    let config = AliasConfig::from_alias(&alias);
    assert_eq!(config.name, "co");
    assert_eq!(config.scope, "worktree");
    assert_eq!(config.kind, "git");
    assert_eq!(config.args, "checkout");
    let back = config.to_alias().unwrap();
    assert_eq!(back, alias);
}

#[test]
fn alias_config_rejects_unknown_scope_and_kind() {
    let bad_scope = AliasConfig {
        name: "a".to_string(),
        scope: "galaxy".to_string(),
        kind: "git".to_string(),
        args: "x".to_string(),
    };
    assert_eq!(bad_scope.to_alias(), None);
    let bad_kind = AliasConfig {
        name: "a".to_string(),
        scope: "local".to_string(),
        kind: "ruby".to_string(),
        args: "x".to_string(),
    };
    assert_eq!(bad_kind.to_alias(), None);
}

#[test]
fn alias_config_maps_every_kind() {
    for (info, kind) in [
        (AliasInfo::GitCommand("x".to_string()), "git"),
        (AliasInfo::PythonCommand("x".to_string()), "python"),
        (AliasInfo::AliasCommand("x".to_string()), "alias"),
    ] {
        let alias = Alias::new(AliasScope::System, "n".to_string(), info);
        assert_eq!(AliasConfig::from_alias(&alias).kind, kind);
    }
}
