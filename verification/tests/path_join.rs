use shot_share::join_remote_path;

#[test]
fn empty_directory_yields_the_filename_alone() {
    assert_eq!(join_remote_path("", "shot.png"), "shot.png");
}

#[test]
fn directory_and_filename_are_joined_with_one_slash() {
    assert_eq!(join_remote_path("/uploads", "shot.png"), "/uploads/shot.png");
}

#[test]
fn trailing_slash_is_collapsed() {
    assert_eq!(join_remote_path("/uploads/", "shot.png"), "/uploads/shot.png");
}

#[test]
fn repeated_trailing_slashes_are_collapsed() {
    assert_eq!(join_remote_path("/uploads///", "shot.png"), "/uploads/shot.png");
}

#[test]
fn root_directory_loses_its_slash_before_joining() {
    assert_eq!(join_remote_path("/", "x.png"), "/x.png");
}

#[test]
fn relative_directory_is_kept() {
    assert_eq!(join_remote_path("pics/screens", "a.png"), "pics/screens/a.png");
}

#[test]
fn joining_is_deterministic() {
    let first = join_remote_path("/uploads/", "shot.png");
    let second = join_remote_path("/uploads/", "shot.png");
    assert_eq!(first, second);
}
