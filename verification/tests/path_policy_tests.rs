use ecall_gateway::errno::Errno;
use ecall_gateway::path_policy::{
    contains_parent_segment, file_name, path_starts_with, split_segments, validate_program_path,
};

fn entry_points(list: &[&[u8]]) -> Vec<Vec<u8>> {
    list.iter().map(|p| p.to_vec()).collect()
}

fn validate(path: &[u8], list: &[&[u8]]) -> Result<(), Errno> {
    validate_program_path(&path.to_vec(), &entry_points(list))
}

#[test]
fn allowed_entry_point_is_accepted() {
    assert_eq!(validate(b"/bin/sh", &[b"/bin"]), Ok(()));
}

#[test]
fn relative_path_is_einval() {
    assert_eq!(validate(b"bin/sh", &[b"/bin"]), Err(Errno::EINVAL));
    assert_eq!(validate(b"", &[b"/bin"]), Err(Errno::EINVAL));
}

#[test]
fn traversal_component_is_einval() {
    assert_eq!(validate(b"/bin/../etc/passwd", &[b"/bin"]), Err(Errno::EINVAL));
    assert_eq!(validate(b"/bin/..", &[b"/bin"]), Err(Errno::EINVAL));
    assert_eq!(validate(b"/../bin/sh", &[b"/bin"]), Err(Errno::EINVAL));
}

#[test]
fn unlisted_path_is_eacces() {
    assert_eq!(validate(b"/sbin/sh", &[b"/bin"]), Err(Errno::EACCES));
    assert_eq!(validate(b"/bin/sh", &[]), Err(Errno::EACCES));
}

#[test]
fn prefix_match_is_structural_not_bytewise() {
    assert_eq!(validate(b"/binx", &[b"/bin"]), Err(Errno::EACCES));
    assert_eq!(validate(b"/bin", &[b"/bin"]), Ok(()));
}

#[test]
fn redundant_separators_and_dots_do_not_defeat_the_gate() {
    assert_eq!(validate(b"//bin//sh", &[b"/bin"]), Ok(()));
    assert_eq!(validate(b"/bin/./sh", &[b"/bin"]), Ok(()));
    assert_eq!(validate(b"/./bin/sh", &[b"/bin"]), Ok(()));
}

#[test]
fn root_prefix_allows_everything_absolute() {
    assert_eq!(validate(b"/etc/passwd", &[b"/"]), Ok(()));
}

#[test]
fn relative_entry_point_matches_no_absolute_path() {
    assert_eq!(validate(b"/bin/sh", &[b"bin"]), Err(Errno::EACCES));
}

#[test]
fn later_entry_point_can_match() {
    assert_eq!(validate(b"/usr/lib/app", &[b"/bin", b"/usr/lib"]), Ok(()));
}

#[test]
fn segments_drop_empty_and_dot_pieces() {
    let segs = split_segments(&b"/a//b/./c/".to_vec());
    let expect: Vec<Vec<u8>> = vec![b"a".to_vec(), b"b".to_vec(), b"c".to_vec()];
    assert_eq!(segs, expect);
    assert_eq!(split_segments(&b"/".to_vec()), Vec::<Vec<u8>>::new());
    assert_eq!(split_segments(&b"".to_vec()), Vec::<Vec<u8>>::new());
}

#[test]
fn parent_segment_detection_is_exact() {
    assert!(contains_parent_segment(&b"/a/..".to_vec()));
    assert!(contains_parent_segment(&b"/..".to_vec()));
    assert!(contains_parent_segment(&b"../a".to_vec()));
    assert!(!contains_parent_segment(&b"/a/..b".to_vec()));
    assert!(!contains_parent_segment(&b"/a..b".to_vec()));
    assert!(!contains_parent_segment(&b"/a.b/c".to_vec()));
}

#[test]
fn structural_prefix_cases() {
    assert!(path_starts_with(&b"/bin/sh".to_vec(), &b"/bin".to_vec()));
    assert!(path_starts_with(&b"/bin/sh".to_vec(), &b"/bin/".to_vec()));
    assert!(path_starts_with(&b"/bin".to_vec(), &b"/bin".to_vec()));
    assert!(!path_starts_with(&b"/binx".to_vec(), &b"/bin".to_vec()));
    assert!(!path_starts_with(&b"/bin/sh".to_vec(), &b"bin".to_vec()));
    assert!(path_starts_with(&b"/bin/sh".to_vec(), &b"/".to_vec()));
}

#[test]
fn file_name_is_last_segment() {
    assert_eq!(file_name(&b"/bin/sh".to_vec()), Some(b"sh".to_vec()));
    assert_eq!(file_name(&b"/bin/sh/".to_vec()), Some(b"sh".to_vec()));
    assert_eq!(file_name(&b"a/../b".to_vec()), Some(b"b".to_vec()));
    assert_eq!(file_name(&b"/".to_vec()), None);
    assert_eq!(file_name(&b"".to_vec()), None);
    assert_eq!(file_name(&b"/a/..".to_vec()), None);
    assert_eq!(file_name(&b"..".to_vec()), None);
}
