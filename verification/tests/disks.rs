use disk_scan::disks::{drive_roots, get_available_disks, mount_parents, HostVolumes, Platform};

fn names(list: &[&str]) -> Option<Vec<Option<String>>> {
    Some(list.iter().map(|n| Some(n.to_string())).collect())
}

fn strings(list: &[&str]) -> Vec<String> {
    list.iter().map(|n| n.to_string()).collect()
}

#[test]
fn linux_lists_the_root_then_media_then_mnt() {
    let host = HostVolumes {
        drives: vec![],
        mounts: vec![names(&["usb", "cdrom"]), names(&["data"])],
    };
    assert_eq!(
        get_available_disks(Platform::Linux, &host),
        strings(&["/", "/media/usb", "/media/cdrom", "/mnt/data"])
    );
}

#[test]
fn macos_lists_the_root_then_the_volumes() {
    let host = HostVolumes { drives: vec![], mounts: vec![names(&["Macintosh HD", "Backup"])] };
    assert_eq!(
        get_available_disks(Platform::MacOs, &host),
        strings(&["/", "/Volumes/Macintosh HD", "/Volumes/Backup"])
    );
}

#[test]
fn windows_lists_the_drives_that_exist() {
    let mut drives = vec![false; 26];
    drives[2] = true;
    drives[3] = true;
    drives[25] = true;
    let host = HostVolumes { drives, mounts: vec![] };
    assert_eq!(
        get_available_disks(Platform::Windows, &host),
        strings(&["C:\\", "D:\\", "Z:\\"])
    );
}

#[test]
fn windows_has_a_candidate_for_each_letter() {
    let roots = drive_roots(Platform::Windows);
    assert_eq!(roots.len(), 26);
    assert_eq!(roots[0], "A:\\");
    assert_eq!(roots[2], "C:\\");
    assert_eq!(roots[25], "Z:\\");
    assert_eq!(drive_roots(Platform::Linux), Vec::<String>::new());
    assert_eq!(drive_roots(Platform::MacOs), Vec::<String>::new());
    assert_eq!(drive_roots(Platform::Unsupported), Vec::<String>::new());
}

#[test]
fn each_platform_has_its_mount_parents() {
    assert_eq!(mount_parents(Platform::Linux), strings(&["/media", "/mnt"]));
    assert_eq!(mount_parents(Platform::MacOs), strings(&["/Volumes"]));
    assert_eq!(mount_parents(Platform::Windows), Vec::<String>::new());
    assert_eq!(mount_parents(Platform::Unsupported), Vec::<String>::new());
}

#[test]
fn unsupported_platform_has_no_volumes() {
    let host = HostVolumes { drives: vec![true; 26], mounts: vec![names(&["x"]), names(&["y"])] };
    assert_eq!(get_available_disks(Platform::Unsupported, &host), Vec::<String>::new());
}

#[test]
fn root_is_listed_whatever_the_host_shows() {
    let nothing = HostVolumes { drives: vec![], mounts: vec![] };
    assert_eq!(get_available_disks(Platform::Linux, &nothing), strings(&["/"]));
    assert_eq!(get_available_disks(Platform::MacOs, &nothing), strings(&["/"]));
    let unreadable = HostVolumes { drives: vec![true], mounts: vec![None, None] };
    assert_eq!(get_available_disks(Platform::Linux, &unreadable), strings(&["/"]));
}

#[test]
fn unreadable_parent_and_bad_names_are_left_out() {
    let host = HostVolumes {
        drives: vec![],
        mounts: vec![None, Some(vec![Some("a".to_string()), None, Some("b".to_string())])],
    };
    assert_eq!(get_available_disks(Platform::Linux, &host), strings(&["/", "/mnt/a", "/mnt/b"]));
}

#[test]
fn observations_beyond_the_candidates_are_not_read() {
    let host = HostVolumes {
        drives: vec![true, true],
        mounts: vec![names(&["a"]), names(&["b"]), names(&["c"])],
    };
    assert_eq!(
        get_available_disks(Platform::Linux, &host),
        strings(&["/", "/media/a", "/mnt/b"])
    );
    assert_eq!(get_available_disks(Platform::MacOs, &host), strings(&["/", "/Volumes/a"]));
    let short = HostVolumes { drives: vec![true], mounts: vec![names(&["a"])] };
    assert_eq!(get_available_disks(Platform::Windows, &short), strings(&["A:\\"]));
}

#[test]
fn windows_without_a_drive_lists_nothing() {
    let host = HostVolumes { drives: vec![false; 26], mounts: vec![] };
    assert_eq!(get_available_disks(Platform::Windows, &host), Vec::<String>::new());
}
