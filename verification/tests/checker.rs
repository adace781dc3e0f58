use ezcfg::checker::check_path;
use ezcfg::checker::check_rewrite_target;
use ezcfg::checker::check_source_exist;
use ezcfg::checker::PathAction;
use ezcfg::checker::PathFacts;
use ezcfg::config::Config;

fn facts() -> PathFacts {
    PathFacts {
        source_exists: true,
        target_exists: false,
        target_is_file: false,
        target_is_symlink: false,
        target_is_dir: false,
    }
}

#[test]
fn source_must_exist() {
    assert_eq!(check_source_exist(true), Ok(()));
    assert_eq!(check_source_exist(false), Err(()));

    let config = Config::new(vec![], false);
    let mut missing = facts();
    missing.source_exists = false;
    assert_eq!(check_path(&config, missing), Err(()));
}

#[test]
fn absent_target_needs_no_action() {
    let config = Config::new(vec![], false);
    assert_eq!(check_path(&config, facts()), Ok(PathAction::LinkOnly));
}

#[test]
fn existing_target_is_rejected_without_rewrite() {
    let mut f = facts();
    f.target_exists = true;
    f.target_is_file = true;
    assert_eq!(check_rewrite_target(false, f), Err(()));
}

#[test]
fn rewrite_removes_a_file_or_symlink_as_a_file() {
    let mut file = facts();
    file.target_exists = true;
    file.target_is_file = true;
    assert_eq!(check_rewrite_target(true, file), Ok(PathAction::RemoveFileFirst));

    let mut symlink = facts();
    symlink.target_exists = true;
    symlink.target_is_symlink = true;
    assert_eq!(check_rewrite_target(true, symlink), Ok(PathAction::RemoveFileFirst));
}

#[test]
fn rewrite_removes_a_directory_as_a_tree() {
    let mut dir = facts();
    dir.target_exists = true;
    dir.target_is_dir = true;
    assert_eq!(check_rewrite_target(true, dir), Ok(PathAction::RemoveDirFirst));
}

#[test]
fn rewrite_rejects_a_target_of_unknown_kind() {
    let mut odd = facts();
    odd.target_exists = true;
    assert_eq!(check_rewrite_target(true, odd), Err(()));
}
