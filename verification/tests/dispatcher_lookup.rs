use handshake::dispatcher::{Command, CommandDispatcher, CommandError, CommandTree};

fn tree(names: &[&str], description: &str) -> CommandTree {
    CommandTree {
        names: names.iter().map(|n| n.to_string()).collect(),
        description: description.to_string(),
    }
}

#[test]
fn register_stores_tree_under_primary_name() {
    let mut d = CommandDispatcher::new();
    d.register(tree(&["teleport", "tp"], "moves a player"));
    match d.get_tree("teleport") {
        Ok(t) => assert_eq!(t.description, "moves a player"),
        Err(e) => panic!("expected the tree, got {:?}", e),
    }
}

#[test]
fn aliases_resolve_to_the_same_tree() {
    let mut d = CommandDispatcher::new();
    d.register(tree(&["teleport", "tp", "warp"], "moves a player"));
    match d.find("tp") {
        Some(Command::Alias(target)) => assert_eq!(target, "teleport"),
        other => panic!("expected an alias, got {:?}", other),
    }
    match d.get_tree("warp") {
        Ok(t) => assert_eq!(t.names[0], "teleport"),
        Err(e) => panic!("expected the tree, got {:?}", e),
    }
}

#[test]
fn unknown_command_is_reported() {
    let d = CommandDispatcher::new();
    match d.get_tree("nope") {
        Err(CommandError::GeneralCommandIssue(m)) => assert_eq!(m, "Command not found"),
        other => panic!("expected a not-found error, got {:?}", other),
    }
}

#[test]
fn later_registration_wins_over_an_alias() {
    let mut d = CommandDispatcher::new();
    d.register(tree(&["list", "ls"], "lists players"));
    d.register(tree(&["ls"], "lists something else"));
    match d.get_tree("ls") {
        Ok(t) => assert_eq!(t.description, "lists something else"),
        Err(e) => panic!("expected the shadowing tree, got {:?}", e),
    }
    match d.get_tree("list") {
        Ok(t) => assert_eq!(t.description, "lists players"),
        Err(e) => panic!("expected the first tree, got {:?}", e),
    }
}

#[test]
fn dangling_alias_is_an_internal_error() {
    let mut d = CommandDispatcher::new();
    d.register(tree(&["x", "y"], "first"));
    d.register(tree(&["z", "x"], "second"));
    match d.get_tree("y") {
        Err(CommandError::GeneralCommandIssue(m)) => {
            assert_eq!(m, "Internal Error (See logs for details)")
        }
        other => panic!("expected an internal error, got {:?}", other),
    }
}
