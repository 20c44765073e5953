//! The volumes that a host offers: the root, the drive roots that exist, and
//! what is mounted under the usual parent directories.

use vstd::prelude::*;

verus! {

/// The kinds of host whose volumes can be listed.
#[derive(Clone, Copy, Debug, PartialEq, Eq, Structural)]
pub enum Platform {
    Windows,
    MacOs,
    Linux,
    /// Any other host. It has no volumes to list.
    Unsupported,
}

/// What the host showed of the places where volumes appear.
#[derive(Clone, Debug, PartialEq, Eq)]
pub struct HostVolumes {
    /// For each path of [`drive_roots`] in turn, whether it exists.
    pub drives: Vec<bool>,
    /// For each directory of [`mount_parents`] in turn, the names it lists,
    /// or `None` where it is missing or cannot be read. A name is `None`
    /// where it is not valid text.
    pub mounts: Vec<Option<Vec<Option<String>>>>,
}

/// The letters that a drive can have.
pub open spec fn drive_letters() -> Seq<char> {
    "ABCDEFGHIJKLMNOPQRSTUVWXYZ"@
}

/// What follows the letter in the root of a drive.
pub open spec fn drive_suffix() -> Seq<char> {
    ":\\"@
}

/// The root of the drive with the letter at `index`.
pub open spec fn drive_root(index: int) -> Seq<char> {
    drive_letters().subrange(index, index + 1) + drive_suffix()
}

/// The drive roots to look for, in order: those of all 26 letters on
/// Windows, none elsewhere.
pub open spec fn drive_candidates(platform: Platform) -> Seq<Seq<char>> {
    if platform == Platform::Windows {
        Seq::new(26, |index: int| drive_root(index))
    } else {
        Seq::empty()
    }
}

/// The root volume, which is listed whatever the host shows: `/` on macOS
/// and Linux.
pub open spec fn root_volumes(platform: Platform) -> Seq<Seq<char>> {
    if platform == Platform::MacOs || platform == Platform::Linux {
        seq!["/"@]
    } else {
        Seq::empty()
    }
}

/// The directories whose entries are mounted volumes, in order.
pub open spec fn mount_parent_paths(platform: Platform) -> Seq<Seq<char>> {
    match platform {
        Platform::MacOs => seq!["/Volumes"@],
        Platform::Linux => seq!["/media"@, "/mnt"@],
        _ => Seq::empty(),
    }
}

/// The candidates that exist, in order. A candidate that the host says
/// nothing of counts as absent.
pub open spec fn present_candidates(candidates: Seq<Seq<char>>, present: Seq<bool>) -> Seq<
    Seq<char>,
>
    decreases candidates.len(),
{
    if candidates.len() == 0 {
        Seq::empty()
    } else {
        let rest = present_candidates(candidates.drop_last(), present);
        let index = candidates.len() - 1;
        if index < present.len() && present[index] {
            rest.push(candidates.last())
        } else {
            rest
        }
    }
}

/// The path of the volume `name` mounted under `parent`.
pub open spec fn mount_path(parent: Seq<char>, name: Seq<char>) -> Seq<char> {
    parent + "/"@ + name
}

/// The volumes mounted under one parent, in the order of its listing. A name
/// that is not valid text is left out.
pub open spec fn mounted_under(parent: Seq<char>, names: Seq<Option<Seq<char>>>) -> Seq<Seq<char>>
    decreases names.len(),
{
    if names.len() == 0 {
        Seq::empty()
    } else {
        let rest = mounted_under(parent, names.drop_last());
        match names.last() {
            Some(name) => rest.push(mount_path(parent, name)),
            None => rest,
        }
    }
}

/// The volumes mounted under the parents, parent by parent. A parent that is
/// missing or cannot be read, or that the host says nothing of, adds none.
pub open spec fn mounted_volumes(
    parents: Seq<Seq<char>>,
    listings: Seq<Option<Seq<Option<Seq<char>>>>>,
) -> Seq<Seq<char>>
    decreases parents.len(),
{
    if parents.len() == 0 {
        Seq::empty()
    } else {
        let rest = mounted_volumes(parents.drop_last(), listings);
        let index = parents.len() - 1;
        if index < listings.len() && listings[index] is Some {
            rest + mounted_under(parents.last(), listings[index]->0)
        } else {
            rest
        }
    }
}

/// The volumes of a host: the root volume, then the drive roots that exist,
/// then what is mounted under the parent directories.
pub open spec fn available_disks(
    platform: Platform,
    drives: Seq<bool>,
    mounts: Seq<Option<Seq<Option<Seq<char>>>>>,
) -> Seq<Seq<char>> {
    root_volumes(platform) + present_candidates(drive_candidates(platform), drives)
        + mounted_volumes(mount_parent_paths(platform), mounts)
}

/// The drive roots that the caller is to look for, in order.
pub fn drive_roots(platform: Platform) -> (roots: Vec<String>)
    ensures
        roots.deep_view() == drive_candidates(platform),
{
    let mut roots: Vec<String> = Vec::new();
    if platform == Platform::Windows {
        let letters = "ABCDEFGHIJKLMNOPQRSTUVWXYZ";
        proof {
            reveal_strlit("ABCDEFGHIJKLMNOPQRSTUVWXYZ");
        }
        let mut index: usize = 0;
        while index < 26
            invariant
                index <= 26,
                letters@ == drive_letters(),
                letters@.len() == 26,
                roots.len() == index,
                forall|k: int| 0 <= k < index ==> (#[trigger] roots[k])@ == drive_root(k),
            decreases 26 - index,
        {
            let mut root = letters.substring_char(index, index + 1).to_owned();
            root.append(":\\");
            roots.push(root);
            index += 1;
        }
    }
    assert(roots.deep_view() =~= drive_candidates(platform));
    roots
}

/// The directories that the caller is to list, in order.
pub fn mount_parents(platform: Platform) -> (parents: Vec<String>)
    ensures
        parents.deep_view() == mount_parent_paths(platform),
{
    let mut parents: Vec<String> = Vec::new();
    match platform {
        Platform::MacOs => {
            parents.push("/Volumes".to_owned());
        },
        Platform::Linux => {
            parents.push("/media".to_owned());
            parents.push("/mnt".to_owned());
        },
        _ => {},
    }
    assert(parents.deep_view() =~= mount_parent_paths(platform));
    parents
}

/// Adds to `disks` the volumes mounted under `parent`.
fn push_mounted(disks: &mut Vec<String>, parent: &String, names: &Vec<Option<String>>)
    ensures
        final(disks).deep_view() == old(disks).deep_view() + mounted_under(
            parent@,
            names.deep_view(),
        ),
{
    let ghost before = disks.deep_view();
    let ghost listed = names.deep_view();
    let mut k: usize = 0;
    assert(disks.deep_view() =~= before + mounted_under(parent@, listed.take(0)));
    while k < names.len()
        invariant
            k <= names.len(),
            listed == names.deep_view(),
            disks.deep_view() == before + mounted_under(parent@, listed.take(k as int)),
        decreases names.len() - k,
    {
        proof {
            assert(listed.take(k + 1).drop_last() =~= listed.take(k as int));
            assert(listed.take(k + 1).last() == names[k as int].deep_view());
        }
        if let Some(name) = &names[k] {
            let ghost so_far = disks.deep_view();
            let mut path = parent.clone();
            path.append("/");
            path.append(name.as_str());
            disks.push(path);
            assert(disks.deep_view() =~= so_far.push(mount_path(parent@, name@)));
            assert(disks.deep_view() =~= before + mounted_under(parent@, listed.take(k + 1)));
        }
        k += 1;
    }
    proof {
        assert(listed.take(k as int) =~= listed);
    }
}

/// Lists the volumes of a host from what the host showed: the root volume
/// where the platform has one, then each drive root that exists, then each
/// name listed under each mount parent. What is missing or could not be read
/// is left out; nothing makes the listing fail.
pub fn get_available_disks(platform: Platform, host: &HostVolumes) -> (disks: Vec<String>)
    ensures
        disks.deep_view() == available_disks(
            platform,
            host.drives@,
            host.mounts.deep_view(),
        ),
{
    let mut disks: Vec<String> = Vec::new();
    if platform == Platform::MacOs || platform == Platform::Linux {
        disks.push("/".to_owned());
    }
    assert(disks.deep_view() =~= root_volumes(platform));
    let candidates = drive_roots(platform);
    let ghost wanted = drive_candidates(platform);
    let mut i: usize = 0;
    assert(disks.deep_view() =~= root_volumes(platform) + present_candidates(
        wanted.take(0),
        host.drives@,
    ));
    while i < candidates.len()
        invariant
            i <= candidates.len(),
            wanted == candidates.deep_view(),
            disks.deep_view() == root_volumes(platform) + present_candidates(
                wanted.take(i as int),
                host.drives@,
            ),
        decreases candidates.len() - i,
    {
        proof {
            assert(wanted.take(i + 1).drop_last() =~= wanted.take(i as int));
            assert(wanted.take(i + 1).last() == candidates[i as int]@);
        }
        if i < host.drives.len() && host.drives[i] {
            let ghost so_far = disks.deep_view();
            disks.push(candidates[i].clone());
            assert(disks.deep_view() =~= so_far.push(candidates[i as int]@));
            assert(disks.deep_view() =~= root_volumes(platform) + present_candidates(
                wanted.take(i + 1),
                host.drives@,
            ));
        }
        i += 1;
    }
    proof {
        assert(wanted.take(i as int) =~= wanted);
    }
    let parents = mount_parents(platform);
    let ghost fixed = disks.deep_view();
    let ghost under = mount_parent_paths(platform);
    let ghost shown = host.mounts.deep_view();
    let mut j: usize = 0;
    assert(disks.deep_view() =~= fixed + mounted_volumes(under.take(0), shown));
    while j < parents.len()
        invariant
            j <= parents.len(),
            under == parents.deep_view(),
            shown == host.mounts.deep_view(),
            disks.deep_view() == fixed + mounted_volumes(under.take(j as int), shown),
        decreases parents.len() - j,
    {
        proof {
            assert(under.take(j + 1).drop_last() =~= under.take(j as int));
            assert(under.take(j + 1).last() == parents[j as int]@);
        }
        if j < host.mounts.len() {
            assert(shown[j as int] == host.mounts[j as int].deep_view());
            if let Some(names) = &host.mounts[j] {
                let ghost so_far = disks.deep_view();
                push_mounted(&mut disks, &parents[j], names);
                assert(disks.deep_view() =~= fixed + mounted_volumes(under.take(j + 1), shown));
            }
        }
        j += 1;
    }
    proof {
        assert(under.take(j as int) =~= under);
        assert(disks.deep_view() =~= available_disks(
            platform,
            host.drives@,
            host.mounts.deep_view(),
        ));
    }
    disks
}

/// On macOS and Linux the root volume leads the listing, whatever the host
/// shows. On a platform that is not supported the listing is empty.
pub proof fn law_root_volume_is_listed(
    platform: Platform,
    drives: Seq<bool>,
    mounts: Seq<Option<Seq<Option<Seq<char>>>>>,
)
    ensures
        platform == Platform::MacOs || platform == Platform::Linux ==> available_disks(
            platform,
            drives,
            mounts,
        ).len() > 0 && available_disks(platform, drives, mounts)[0] == "/"@,
        platform == Platform::Unsupported ==> available_disks(platform, drives, mounts)
            == Seq::<Seq<char>>::empty(),
{
    if platform == Platform::Unsupported {
        assert(present_candidates(Seq::empty(), drives) =~= Seq::<Seq<char>>::empty());
        assert(mounted_volumes(Seq::empty(), mounts) =~= Seq::<Seq<char>>::empty());
        assert(available_disks(platform, drives, mounts) =~= Seq::<Seq<char>>::empty());
    }
}

} // verus!
