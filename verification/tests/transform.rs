use ezcfg::link_transform::handle_path_placeholder;
use ezcfg::link_transform::handle_source;
use ezcfg::link_transform::handle_target;
use ezcfg::link_transform::join_path;
use ezcfg::link_transform::link_transform;

#[test]
fn it_should_cocnat_pwd_in_handle_source() {
    let source = "source";
    let pwd = "/current/dir";
    let expected = "/current/dir/source";
    assert_eq!(expected, handle_source(source, pwd));
}

#[test]
fn it_should_handle_home_in_handle_path_placeholder() {
    let path = "$HOME/path";
    let expected = "/home/user/path";
    assert_eq!(expected, handle_path_placeholder(path, "/home/user"));
}

#[test]
fn join_path_keeps_an_absolute_path() {
    assert_eq!("/abs/path", join_path("/base", "/abs/path"));
}

#[test]
fn join_path_adds_exactly_one_separator() {
    assert_eq!("/base/x", join_path("/base", "x"));
    assert_eq!("/base/x", join_path("/base/", "x"));
}

#[test]
fn placeholder_needs_the_whole_home_prefix() {
    assert_eq!("$HOM", handle_path_placeholder("$HOM", "/home/user"));
    assert_eq!("plain", handle_path_placeholder("plain", "/home/user"));
    assert_eq!("/home/userR", handle_path_placeholder("$HOMER", "/home/user"));
}

#[test]
fn handle_target_ignores_the_working_directory() {
    assert_eq!("relative/t", handle_target("relative/t", "/home/user"));
}

#[test]
fn link_transform_maps_every_pair() {
    let links = vec![
        ("a".to_string(), "$HOME/b".to_string()),
        ("/abs".to_string(), "c".to_string()),
    ];
    let transformed = link_transform(links, "/pwd", "/home/user");
    assert_eq!(
        transformed,
        vec![
            ("/pwd/a".to_string(), "/home/user/b".to_string()),
            ("/abs".to_string(), "c".to_string()),
        ]
    );
}
