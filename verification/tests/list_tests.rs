use quicktag::lists::{
    package_label, package_matches, reversed, sort_entries, sort_packages, sort_signatures, sort_textures,
    texture_packages, EntryRow, PackageName, TextureRow,
};
use quicktag::signatures::Signature;
use quicktag::taghash::TagHash;
use quicktag::tagtypes::TagType;
use quicktag::version::{DestinyVersion, GameVersion};
use quicktag::views::Sorting;

fn pkg(pkg_id: u16, name: &str, id: &str) -> PackageName {
    PackageName { pkg_id, name: name.to_string(), id: id.to_string() }
}

#[test]
fn packages_by_label() {
    assert_eq!(package_label(&pkg(1, "europa", "0059")), "europa_0059");
    let sorted = sort_packages(vec![pkg(1, "zone", "01"), pkg(2, "arch", "02"), pkg(3, "arch", "01")]);
    let ids: Vec<u16> = sorted.iter().map(|p| p.pkg_id).collect();
    assert_eq!(ids, vec![3, 2, 1]);
    assert!(package_matches(&pkg(1, "Europa", "0059"), "EUROPA_00"));
    assert!(package_matches(&pkg(1, "europa", "0059"), ""));
    assert!(!package_matches(&pkg(1, "europa", "0059"), "dungeon"));
}

#[test]
fn packages_with_textures() {
    let v = GameVersion::Destiny(DestinyVersion::Destiny2Lightfall);
    let packages = vec![
        (pkg(1, "zeta", "01"), vec![(8, 0), (32, 1)]),
        (pkg(2, "alpha", "02"), vec![(40, 1)]),
        (pkg(3, "beta", "03"), vec![(32, 1)]),
    ];
    assert_eq!(texture_packages(v, packages, None), vec![3, 1]);
    let packages = vec![(pkg(1, "zeta", "01"), vec![(32, 1)]), (pkg(3, "beta", "03"), vec![(32, 1)])];
    assert_eq!(texture_packages(v, packages, Some("ZETA")), vec![1]);
}

fn row(index: usize, file_size: u32) -> EntryRow {
    EntryRow { index, label: format!("e{index}"), tag_type: TagType::Tag, file_size }
}

#[test]
fn entries_by_size_or_index() {
    let rows = vec![row(2, 10), row(0, 30), row(1, 10)];
    let by_size: Vec<usize> = sort_entries(rows, true).iter().map(|e| e.index).collect();
    assert_eq!(by_size, vec![0, 1, 2]);
    let rows = vec![row(2, 10), row(0, 30), row(1, 10)];
    let by_index: Vec<usize> = sort_entries(rows, false).iter().map(|e| e.index).collect();
    assert_eq!(by_index, vec![0, 1, 2]);
    assert_eq!(reversed(vec![1, 2, 3]), vec![3, 2, 1]);
}

fn tex(index: usize, size: Option<(u32, u32)>) -> TextureRow {
    TextureRow { index, tag: TagHash(0x80800000 + index as u32), tag_type: TagType::Texture2D { is_header: true }, size }
}

#[test]
fn textures_by_index_or_area() {
    let rows = || vec![tex(0, Some((4, 4))), tex(1, None), tex(2, Some((2, 2)))];
    let order = |s| sort_textures(rows(), s).iter().map(|t| t.index).collect::<Vec<usize>>();
    assert_eq!(order(Sorting::IndexAsc), vec![0, 1, 2]);
    assert_eq!(order(Sorting::IndexDesc), vec![2, 1, 0]);
    assert_eq!(order(Sorting::SizeAsc), vec![1, 2, 0]);
    assert_eq!(order(Sorting::SizeDesc), vec![0, 2, 1]);
}

#[test]
fn signatures_by_name() {
    let sorted = sort_signatures(vec![
        (Signature::U32(1), "beta".to_string()),
        (Signature::U64(2), "alpha".to_string()),
        (Signature::U32(3), "beta".to_string()),
    ]);
    let names: Vec<(String, Signature)> = sorted.into_iter().map(|(s, n)| (n, s)).collect();
    assert_eq!(
        names,
        vec![
            ("alpha".to_string(), Signature::U64(2)),
            ("beta".to_string(), Signature::U32(1)),
            ("beta".to_string(), Signature::U32(3)),
        ]
    );
}
