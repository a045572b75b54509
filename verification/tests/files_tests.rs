use phorg::files::{
    are_nums, auxiliary_subpath, dst, filter_type, organize_action, File, FileAction, FilePaths,
    Op, PathInfo, Typ,
};
use phorg::timestamp::Timestamp;

fn ts(year: u16, month: u8, day: u8, hour: u8, minute: u8, second: u8) -> Timestamp {
    Timestamp { year, month, day, hour, minute, second }
}

#[test]
fn t_auxiliary_subpath() {
    let root = "/a/b/c";
    let ty = Typ::Img;
    let img_dir = "img";
    let vid_dir = "vid";

    // Single level aux subdir:
    let path = "/a/b/c/img/2009/01/07/foo/file.jpg";
    let aux = auxiliary_subpath(root, path, ty, img_dir, vid_dir);
    assert_eq!(Some("foo".to_string()), aux);

    // Multi level aux subdir:
    let path = "/a/b/c/img/2009/01/07/foo/bar/baz/file.jpg";
    let aux = auxiliary_subpath(root, path, ty, img_dir, vid_dir);
    assert_eq!(Some("foo/bar/baz".to_string()), aux);

    // No aux subdir:
    let path = "/a/b/c/img/2009/01/07/file.jpg";
    let aux = auxiliary_subpath(root, path, ty, img_dir, vid_dir);
    assert_eq!(None, aux);

    // Not proper date path:
    let path = "/a/b/c/img/2009/01/foo/file.jpg";
    let aux = auxiliary_subpath(root, path, ty, img_dir, vid_dir);
    assert_eq!(None, aux);

    // Relative path:
    let root = "/a/b/c";
    let path = "a/b/c/img/2009/01/07/foo/file.jpg";
    let aux = auxiliary_subpath(root, path, ty, img_dir, vid_dir);
    assert_eq!(None, aux);

    // Relative root:
    let root = "a/b/c";
    let path = "a/b/c/img/2009/01/07/foo/file.jpg";
    let aux = auxiliary_subpath(root, path, ty, img_dir, vid_dir);
    assert_eq!(Some("foo".to_string()), aux);

    // Root mismatch:
    let root = "a/b/c";
    let path = "/a/b/c/img/2009/01/07/foo/file.jpg";
    let aux = auxiliary_subpath(root, path, ty, img_dir, vid_dir);
    assert_eq!(None, aux);

    // Root mismatch:
    let root = "/meh";
    let path = "/a/b/c/img/2009/01/07/foo/file.jpg";
    let aux = auxiliary_subpath(root, path, ty, img_dir, vid_dir);
    assert_eq!(None, aux);
}

#[test]
fn aux_subpath_requires_numeric_dates() {
    // A non-numeric year component yields no auxiliary subpath.
    let aux = auxiliary_subpath("/r", "/r/img/year/01/07/foo/f.jpg", Typ::Img, "img", "vid");
    assert_eq!(None, aux);
    // The video kind uses the video subdirectory.
    let aux = auxiliary_subpath("/r", "/r/vid/2009/01/07/foo/f.mov", Typ::Vid, "img", "vid");
    assert_eq!(Some("foo".to_string()), aux);
    let aux = auxiliary_subpath("/r", "/r/img/2009/01/07/foo/f.mov", Typ::Vid, "img", "vid");
    assert_eq!(None, aux);
}

#[test]
fn are_nums_cases() {
    assert!(are_nums(&vec![]));
    assert!(are_nums(&vec!["2009".to_string(), "01".to_string(), "07".to_string()]));
    assert!(!are_nums(&vec!["2009".to_string(), "jan".to_string(), "07".to_string()]));
    assert!(!are_nums(&vec!["".to_string()]));
    assert!(!are_nums(&vec!["20 9".to_string()]));
    assert!(!are_nums(&vec!["-2009".to_string()]));
}

#[test]
fn aux_subpath_normalizes_separators() {
    // Repeated separators and `.` components do not affect the component
    // view of a path.
    let aux = auxiliary_subpath(
        "/a/b/c",
        "/a/b//c/./img/2009/01/07/foo/file.jpg",
        Typ::Img,
        "img",
        "vid",
    );
    assert_eq!(Some("foo".to_string()), aux);
}

#[test]
fn dst_literal_scenario() {
    // The fixture scenario: an image with an embedded timestamp of
    // 2000-12-27 06:47:01 and checksum digest 383ba95e filed under `img`.
    let t = ts(2000, 12, 27, 6, 47, 1);
    let file = File::new(
        "/source",
        "/source/foo.jpg",
        Typ::Img,
        "img",
        "vid",
        &t,
        phorg::hash::Hash::Crc32,
        "383ba95e",
    );
    assert_eq!("/source/foo.jpg", file.src.as_str());
    assert_eq!(
        "img/2000/12/27/2000-12-27--06:47:01--crc32:383ba95e.jpg",
        file.dst.as_str()
    );
}

#[test]
fn dst_preserves_aux_subpath() {
    // Re-running over previously organized output keeps manual subfolders.
    let t = ts(2009, 1, 7, 10, 20, 30);
    let d = dst(
        "/organized",
        "/organized/img/2009/01/07/holiday/pic.JPG",
        Typ::Img,
        "img",
        "vid",
        &t,
        "crc32",
        "00000000",
    );
    assert_eq!(
        "img/2009/01/07/holiday/2009-01-07--10:20:30--crc32:00000000.jpg",
        d.as_str()
    );
}

#[test]
fn dst_extension_handling() {
    let t = ts(2000, 1, 2, 3, 4, 5);
    // Uppercase extensions are lowercased.
    let d = dst("/s", "/s/a.JPG", Typ::Img, "img", "vid", &t, "md5", "aa");
    assert_eq!("img/2000/01/02/2000-01-02--03:04:05--md5:aa.jpg", d.as_str());
    // No extension means no trailing dot.
    let d = dst("/s", "/s/noext", Typ::Img, "img", "vid", &t, "md5", "aa");
    assert_eq!("img/2000/01/02/2000-01-02--03:04:05--md5:aa", d.as_str());
    // An empty extension (name ending in a dot) also means no trailing dot.
    let d = dst("/s", "/s/trailing.", Typ::Img, "img", "vid", &t, "md5", "aa");
    assert_eq!("img/2000/01/02/2000-01-02--03:04:05--md5:aa", d.as_str());
    // Videos are filed under the video subdirectory.
    let d = dst("/s", "/s/clip.MOV", Typ::Vid, "img", "vid", &t, "sha1", "bb");
    assert_eq!("vid/2000/01/02/2000-01-02--03:04:05--sha1:bb.mov", d.as_str());
}

#[test]
fn dst_pads_small_fields() {
    // Every date and time field is zero-padded to at least two digits.
    let t = ts(5, 2, 3, 4, 5, 6);
    let d = dst("/s", "/s/a.jpg", Typ::Img, "img", "vid", &t, "crc32", "cc");
    assert_eq!("img/05/02/03/05-02-03--04:05:06--crc32:cc.jpg", d.as_str());
}

#[test]
fn dst_is_pure_in_the_name() {
    // Unrelated attributes of the source, such as its base name, do not
    // affect the destination: only extension and auxiliary subpath do.
    let t = ts(2020, 6, 7, 8, 9, 10);
    let a = dst("/s", "/s/one.jpg", Typ::Img, "img", "vid", &t, "crc32", "dd");
    let b = dst("/s", "/s/other.jpg", Typ::Img, "img", "vid", &t, "crc32", "dd");
    assert_eq!(a, b);
    // And planning twice is idempotent.
    let c = dst("/s", "/s/one.jpg", Typ::Img, "img", "vid", &t, "crc32", "dd");
    assert_eq!(a, c);
}

#[test]
fn organize_action_conflicts() {
    // Show never mutates.
    assert_eq!(FileAction::ShowOnly, organize_action(&Op::Show, true, true, true));
    assert_eq!(FileAction::ShowOnly, organize_action(&Op::Show, false, false, false));
    // An existing destination equal to the source is always skipped.
    assert_eq!(FileAction::SkipSame, organize_action(&Op::Copy, true, true, true));
    assert_eq!(FileAction::SkipSame, organize_action(&Op::Move, true, true, false));
    // An existing destination without force is skipped.
    assert_eq!(FileAction::SkipExists, organize_action(&Op::Copy, true, false, false));
    assert_eq!(FileAction::SkipExists, organize_action(&Op::Move, true, false, false));
    // Force overwrites a foreign existing destination.
    assert_eq!(FileAction::CopyFile, organize_action(&Op::Copy, true, false, true));
    assert_eq!(FileAction::MoveFile, organize_action(&Op::Move, true, false, true));
    // A fresh destination proceeds.
    assert_eq!(FileAction::CopyFile, organize_action(&Op::Copy, false, false, false));
    assert_eq!(FileAction::MoveFile, organize_action(&Op::Move, false, false, false));
}

#[test]
fn filter_type_gate() {
    // Unsupported content never proceeds, whatever the filter.
    assert_eq!(None, filter_type(None, None));
    assert_eq!(None, filter_type(None, Some(Typ::Img)));
    assert_eq!(None, filter_type(None, Some(Typ::Vid)));
    // Without a filter both kinds proceed.
    assert_eq!(Some(Typ::Img), filter_type(Some(Typ::Img), None));
    assert_eq!(Some(Typ::Vid), filter_type(Some(Typ::Vid), None));
    // A filter lets only its own kind through.
    assert_eq!(Some(Typ::Img), filter_type(Some(Typ::Img), Some(Typ::Img)));
    assert_eq!(None, filter_type(Some(Typ::Img), Some(Typ::Vid)));
    assert_eq!(None, filter_type(Some(Typ::Vid), Some(Typ::Img)));
}

#[test]
fn walker_breadth_first() {
    let mut w = FilePaths::find("/root");
    assert_eq!(Some(&"/root".to_string()), w.front());

    // The root is a directory: its entries join the frontier in order.
    let out = w.advance(PathInfo::Directory(vec![
        "/root/sub".to_string(),
        "/root/a.jpg".to_string(),
    ]));
    assert_eq!(None, out);

    // A nested directory's entries queue behind earlier siblings.
    assert_eq!(Some(&"/root/sub".to_string()), w.front());
    let out = w.advance(PathInfo::Directory(vec!["/root/sub/b.jpg".to_string()]));
    assert_eq!(None, out);

    // Regular files are yielded.
    assert_eq!(Some(&"/root/a.jpg".to_string()), w.front());
    assert_eq!(Some("/root/a.jpg".to_string()), w.advance(PathInfo::RegularFile));

    // Unreadable and special entries are dropped, traversal continues.
    assert_eq!(Some(&"/root/sub/b.jpg".to_string()), w.front());
    assert_eq!(None, w.advance(PathInfo::Unreadable));
    assert_eq!(None, w.front());
}

#[test]
fn walker_skips_special_files() {
    let mut w = FilePaths::find("/r");
    let out = w.advance(PathInfo::Directory(vec![
        "/r/fifo".to_string(),
        "/r/c.png".to_string(),
    ]));
    assert_eq!(None, out);
    assert_eq!(None, w.advance(PathInfo::OtherKind));
    assert_eq!(Some("/r/c.png".to_string()), w.advance(PathInfo::RegularFile));
    assert_eq!(None, w.front());
}
