//! The lists the tool shows: packages by name, the packages that hold textures, the entries of
//! a package, the textures of a package and the signatures, each in its order and with its
//! search.
use vstd::prelude::*;
use crate::filters::{contains_seq, lowercase, text_contains, to_lowercase};
use crate::keysort::{
    sort_by_number, sort_by_text, sort_number_keyed, sort_text_keyed, strip_keys, text_keyed,
};
use crate::signatures::Signature;
use crate::strutil::{push_char, push_str};
use crate::taghash::TagHash;
use crate::tagtypes::{spec_is_header, spec_is_texture, type_for_version, TagType};
use crate::text::str_chars;
use crate::version::GameVersion;
use crate::views::Sorting;

verus! {

/// Items in the opposite order.
pub fn reversed<T>(items: Vec<T>) -> (r: Vec<T>)
    ensures
        r@ == items@.reverse(),
{
    let ghost all = items@;
    let mut rest = items;
    let mut out: Vec<T> = Vec::new();
    while rest.len() > 0
        invariant
            rest@.len() <= all.len(),
            rest@ == all.take(rest@.len() as int),
            out@ == all.skip(rest@.len() as int).reverse(),
        decreases rest@.len(),
    {
        let ghost n = rest@.len();
        let ghost before = rest@;
        let x = rest.pop().unwrap();
        assert(before.last() == all[n - 1]);
        assert(x == all[n - 1]);
        assert(rest@ =~= all.take(n - 1));
        out.push(x);
        assert(out@ =~= all.skip(n - 1).reverse());
    }
    assert(all.skip(0) =~= all);
    out
}

// ---------------------------------------------------------------------------------------------
// Packages

/// What the lists show of a package: its id, its name and the id part of its file name.
pub struct PackageName {
    pub pkg_id: u16,
    pub name: String,
    pub id: String,
}

/// A package's label: its name, an underscore and its file id.
pub open spec fn package_label_of(p: PackageName) -> Seq<char> {
    p.name@ + seq!['_'] + p.id@
}

/// A package's label (see `package_label_of`).
pub fn package_label(p: &PackageName) -> (r: String)
    ensures
        r@ == package_label_of(*p),
{
    let mut s = String::new();
    push_str(&mut s, p.name.as_str());
    push_char(&mut s, '_');
    push_str(&mut s, p.id.as_str());
    assert(s@ =~= package_label_of(*p));
    s
}

/// Packages paired with their labels.
pub open spec fn labeled_packages(s: Seq<PackageName>) -> Seq<(Seq<char>, PackageName)> {
    s.map_values(|p: PackageName| (package_label_of(p), p))
}

fn label_packages(packages: Vec<PackageName>) -> (r: Vec<(Vec<char>, PackageName)>)
    ensures
        text_keyed(r@) == labeled_packages(packages@),
{
    let ghost all = packages@;
    let mut rest = packages;
    let n = rest.len();
    let mut keyed: Vec<(Vec<char>, PackageName)> = Vec::new();
    let mut i: usize = 0;
    while rest.len() > 0
        invariant
            i + rest@.len() == all.len(),
            all.len() == n,
            rest@ == all.skip(i as int),
            text_keyed(keyed@) == labeled_packages(all.take(i as int)),
        decreases rest@.len(),
    {
        let x = rest.remove(0);
        assert(x == all[i as int]);
        assert(rest@ =~= all.skip(i + 1));
        let label = package_label(&x);
        let k = str_chars(label.as_str());
        let ghost before = keyed@;
        keyed.push((k, x));
        assert(all.take(i + 1) =~= all.take(i as int).push(all[i as int]));
        assert(text_keyed(keyed@) =~= text_keyed(before).push((k@, x)));
        assert(labeled_packages(all.take(i + 1)) =~= labeled_packages(all.take(i as int)).push((package_label_of(x), x)));
        i += 1;
    }
    assert(all.take(i as int) =~= all);
    keyed
}

/// The packages ordered by label, as the package list shows them.
pub fn sort_packages(packages: Vec<PackageName>) -> (r: Vec<PackageName>)
    ensures
        r@ == sort_by_text(labeled_packages(packages@)).map_values(|p: (Seq<char>, PackageName)| p.1),
{
    let keyed = label_packages(packages);
    let sorted = sort_text_keyed(keyed);
    let ghost sv = sorted@;
    let r = strip_keys(sorted);
    proof {
        assert forall|k: int| 0 <= k < r@.len() implies r@[k] == sort_by_text(labeled_packages(packages@))[k].1 by {
            assert(text_keyed(sv)[k] == (sv[k].0@, sv[k].1));
        }
        assert(r@ =~= sort_by_text(labeled_packages(packages@)).map_values(|p: (Seq<char>, PackageName)| p.1));
    }
    r
}

/// Whether a search text shows a package: an empty search shows every package, another one
/// those whose label, case-folded, contains the case-folded search.
pub open spec fn package_shown(p: PackageName, filter: Seq<char>) -> bool {
    filter.len() == 0 || contains_seq(lowercase(package_label_of(p)), lowercase(filter))
}

/// Whether a search text shows a package (see `package_shown`).
pub fn package_matches(p: &PackageName, filter: &str) -> (r: bool)
    ensures
        r == package_shown(*p, filter@),
{
    if filter.is_empty() {
        return true;
    }
    let label = package_label(p);
    let l = to_lowercase(label.as_str());
    let f = to_lowercase(filter);
    text_contains(l.as_str(), f.as_str())
}

/// Whether a package holds a texture header among its entries (file type and subtype pairs).
pub open spec fn holds_textures(version: GameVersion, entries: Seq<(u8, u8)>) -> bool {
    exists|k: int|
        0 <= k < entries.len() && {
            let t = type_for_version(version, (#[trigger] entries[k]).0, entries[k].1);
            spec_is_texture(t) && spec_is_header(t)
        }
}

fn has_texture_header(version: GameVersion, entries: &[(u8, u8)]) -> (r: bool)
    ensures
        r == holds_textures(version, entries@),
{
    let mut k: usize = 0;
    while k < entries.len()
        invariant
            k <= entries@.len(),
            forall|j: int|
                0 <= j < k ==> {
                    let t = type_for_version(version, (#[trigger] entries@[j]).0, entries@[j].1);
                    !(spec_is_texture(t) && spec_is_header(t))
                },
        decreases entries@.len() - k,
    {
        let t = TagType::from_type_subtype_for_version(version, entries[k].0, entries[k].1);
        if t.is_texture() && t.is_header() {
            return true;
        }
        k += 1;
    }
    false
}

/// The packages that the texture list offers: those holding a texture header, shown by the
/// search (when there is one), ordered by label.
pub open spec fn texture_packages_of(
    version: GameVersion,
    packages: Seq<(PackageName, Vec<(u8, u8)>)>,
    search: Option<Seq<char>>,
) -> Seq<u16> {
    let wanted = packages.filter(
        |p: (PackageName, Vec<(u8, u8)>)|
            holds_textures(version, p.1@) && match search {
                Some(s) => contains_seq(lowercase(package_label_of(p.0)), lowercase(s)),
                None => true,
            },
    );
    sort_by_text(labeled_packages(wanted.map_values(|p: (PackageName, Vec<(u8, u8)>)| p.0))).map_values(
        |p: (Seq<char>, PackageName)| p.1.pkg_id,
    )
}

/// The packages that the texture list offers (see `texture_packages_of`): each package comes
/// with the file types and subtypes of its entries.
pub fn texture_packages(
    version: GameVersion,
    packages: Vec<(PackageName, Vec<(u8, u8)>)>,
    search: Option<&str>,
) -> (r: Vec<u16>)
    ensures
        r@ == texture_packages_of(
            version,
            packages@,
            match search {
                Some(s) => Some(s@),
                None => None,
            },
        ),
{
    proof {
        reveal(Seq::filter);
    }
    let ghost sv = match search {
        Some(s) => Some(s@),
        None => None::<Seq<char>>,
    };
    let ghost pred = |p: (PackageName, Vec<(u8, u8)>)|
        holds_textures(version, p.1@) && match sv {
            Some(s) => contains_seq(lowercase(package_label_of(p.0)), lowercase(s)),
            None => true,
        };
    let ghost all = packages@;
    let search_lower = match search {
        Some(s) => Some(to_lowercase(s)),
        None => None,
    };
    let mut rest = packages;
    let n = rest.len();
    let mut wanted: Vec<PackageName> = Vec::new();
    let mut i: usize = 0;
    assert(all.take(0).filter(pred) =~= Seq::<(PackageName, Vec<(u8, u8)>)>::empty()) by {
        assert(all.take(0) =~= Seq::<(PackageName, Vec<(u8, u8)>)>::empty());
    }
    while rest.len() > 0
        invariant
            i + rest@.len() == all.len(),
            all.len() == n,
            rest@ == all.skip(i as int),
            search_lower matches Some(l) ==> sv matches Some(s) && l@ == lowercase(s),
            search_lower is None <==> sv is None,
            pred == (|p: (PackageName, Vec<(u8, u8)>)|
                holds_textures(version, p.1@) && match sv {
                    Some(s) => contains_seq(lowercase(package_label_of(p.0)), lowercase(s)),
                    None => true,
                }),
            wanted@ == all.take(i as int).filter(pred).map_values(|p: (PackageName, Vec<(u8, u8)>)| p.0),
        decreases rest@.len(),
    {
        let x = rest.remove(0);
        assert(x == all[i as int]);
        assert(rest@ =~= all.skip(i + 1));
        let ghost xv = x;
        assert(all.take(i + 1) =~= all.take(i as int).push(x));
        assert(all.take(i + 1).drop_last() =~= all.take(i as int));
        let (p, entries) = x;
        let textures = has_texture_header(version, entries.as_slice());
        let shown = match &search_lower {
            Some(l) => {
                let label = package_label(&p);
                let ll = to_lowercase(label.as_str());
                text_contains(ll.as_str(), l.as_str())
            },
            None => true,
        };
        assert((textures && shown) == pred(xv));
        let ghost before = wanted@;
        proof {
            reveal(Seq::filter);
            assert(all.take(i + 1).last() == xv);
        }
        if textures && shown {
            wanted.push(p);
            assert(all.take(i + 1).filter(pred) == all.take(i as int).filter(pred).push(xv));
            assert(wanted@ =~= all.take(i + 1).filter(pred).map_values(|p: (PackageName, Vec<(u8, u8)>)| p.0));
        } else {
            assert(all.take(i + 1).filter(pred) == all.take(i as int).filter(pred));
        }
        i += 1;
    }
    assert(all.take(i as int) =~= all);
    let sorted = sort_packages(wanted);
    let mut ids: Vec<u16> = Vec::new();
    let mut k: usize = 0;
    while k < sorted.len()
        invariant
            k <= sorted@.len(),
            ids@ == sorted@.take(k as int).map_values(|p: PackageName| p.pkg_id),
        decreases sorted@.len() - k,
    {
        ids.push(sorted[k].pkg_id);
        k += 1;
        assert(ids@ =~= sorted@.take(k as int).map_values(|p: PackageName| p.pkg_id));
    }
    proof {
        assert(sorted@.take(k as int) =~= sorted@);
        let ws = all.filter(pred).map_values(|p: (PackageName, Vec<(u8, u8)>)| p.0);
        let sp = sort_by_text(labeled_packages(ws));
        assert(ids@ =~= sp.map_values(|p: (Seq<char>, PackageName)| p.1.pkg_id)) by {
            assert forall|j: int| 0 <= j < ids@.len() implies ids@[j] == sp[j].1.pkg_id by {
                assert(sorted@[j] == sp.map_values(|p: (Seq<char>, PackageName)| p.1)[j]);
            }
        }
    }
    ids
}

// ---------------------------------------------------------------------------------------------
// Entries of a package

/// An entry of the package list: its index in the package, its label, its type and size.
pub struct EntryRow {
    pub index: usize,
    pub label: String,
    pub tag_type: TagType,
    pub file_size: u32,
}

/// The entries of a package ordered as the list shows them: by size, largest first (entries
/// of equal size in reverse order), or by index.
pub open spec fn sorted_entries_of(rows: Seq<EntryRow>, by_size: bool) -> Seq<EntryRow> {
    if by_size {
        sort_by_number(rows.map_values(|e: EntryRow| (e.file_size as u64, e))).map_values(
            |p: (u64, EntryRow)| p.1,
        ).reverse()
    } else {
        sort_by_number(rows.map_values(|e: EntryRow| (e.index as u64, e))).map_values(|p: (u64, EntryRow)| p.1)
    }
}

/// Orders the entries of a package as the list shows them (see `sorted_entries_of`).
pub fn sort_entries(rows: Vec<EntryRow>, by_size: bool) -> (r: Vec<EntryRow>)
    ensures
        r@ == sorted_entries_of(rows@, by_size),
{
    let ghost all = rows@;
    let mut rest = rows;
    let n = rest.len();
    let mut keyed: Vec<(u64, EntryRow)> = Vec::new();
    let mut i: usize = 0;
    let ghost key = |e: EntryRow| (if by_size { e.file_size as u64 } else { e.index as u64 }, e);
    while rest.len() > 0
        invariant
            i + rest@.len() == all.len(),
            all.len() == n,
            rest@ == all.skip(i as int),
            key == (|e: EntryRow| (if by_size { e.file_size as u64 } else { e.index as u64 }, e)),
            keyed@ == all.take(i as int).map_values(key),
        decreases rest@.len(),
    {
        let x = rest.remove(0);
        assert(x == all[i as int]);
        assert(rest@ =~= all.skip(i + 1));
        let k: u64 = if by_size {
            x.file_size as u64
        } else {
            x.index as u64
        };
        keyed.push((k, x));
        i += 1;
        assert(keyed@ =~= all.take(i as int).map_values(key));
    }
    assert(all.take(i as int) =~= all);
    let sorted = sort_number_keyed(keyed);
    let r = strip_keys(sorted);
    if by_size {
        let rr = reversed(r);
        proof {
            assert(all.map_values(key) =~= all.map_values(|e: EntryRow| (e.file_size as u64, e)));
        }
        rr
    } else {
        proof {
            assert(all.map_values(key) =~= all.map_values(|e: EntryRow| (e.index as u64, e)));
        }
        r
    }
}

// ---------------------------------------------------------------------------------------------
// Textures of a package

/// A texture of the texture list: its index in the package, its tag and type, and its width
/// and height where its header could be read.
pub struct TextureRow {
    pub index: usize,
    pub tag: TagHash,
    pub tag_type: TagType,
    pub size: Option<(u32, u32)>,
}

/// The key a texture is ordered by: its index, or its area (0 without a size).
pub open spec fn texture_sort_key(t: TextureRow, sorting: Sorting) -> u64 {
    match sorting {
        Sorting::IndexAsc | Sorting::IndexDesc => t.index as u64,
        _ => match t.size {
            Some((w, h)) => (w * h) as u64,
            None => 0,
        },
    }
}

/// The textures ordered as the list shows them: by index or by area, reversed for the
/// descending orders.
pub open spec fn sorted_textures_of(rows: Seq<TextureRow>, sorting: Sorting) -> Seq<TextureRow> {
    let s = sort_by_number(rows.map_values(|t: TextureRow| (texture_sort_key(t, sorting), t))).map_values(
        |p: (u64, TextureRow)| p.1,
    );
    if sorting is IndexDesc || sorting is SizeDesc {
        s.reverse()
    } else {
        s
    }
}

/// Orders the textures of a package as the list shows them (see `sorted_textures_of`). Sizes
/// are those of texture headers, whose width and height fit in 16 bits.
pub fn sort_textures(rows: Vec<TextureRow>, sorting: Sorting) -> (r: Vec<TextureRow>)
    requires
        forall|k: int| 0 <= k < rows@.len() ==> ((#[trigger] rows@[k]).size matches Some((w, h)) ==> w < 0x10000 && h < 0x10000),
    ensures
        r@ == sorted_textures_of(rows@, sorting),
{
    let ghost all = rows@;
    let mut rest = rows;
    let n = rest.len();
    let mut keyed: Vec<(u64, TextureRow)> = Vec::new();
    let mut i: usize = 0;
    let ghost key = |t: TextureRow| (texture_sort_key(t, sorting), t);
    while rest.len() > 0
        invariant
            i + rest@.len() == all.len(),
            all.len() == n,
            rest@ == all.skip(i as int),
            forall|k: int| 0 <= k < all.len() ==> ((#[trigger] all[k]).size matches Some((w, h)) ==> w < 0x10000 && h < 0x10000),
            key == (|t: TextureRow| (texture_sort_key(t, sorting), t)),
            keyed@ == all.take(i as int).map_values(key),
        decreases rest@.len(),
    {
        let x = rest.remove(0);
        assert(x == all[i as int]);
        assert(rest@ =~= all.skip(i + 1));
        let k: u64 = match sorting {
            Sorting::IndexAsc | Sorting::IndexDesc => x.index as u64,
            _ => match x.size {
                Some((w, h)) => {
                    assert(w * h < 0x1_0000_0000) by (nonlinear_arith)
                        requires
                            w < 0x10000,
                            h < 0x10000,
                    ;
                    (w as u64) * (h as u64)
                },
                None => 0,
            },
        };
        keyed.push((k, x));
        i += 1;
        assert(keyed@ =~= all.take(i as int).map_values(key));
    }
    assert(all.take(i as int) =~= all);
    let sorted = sort_number_keyed(keyed);
    let r = strip_keys(sorted);
    if sorting.is_descending() {
        reversed(r)
    } else {
        r
    }
}

// ---------------------------------------------------------------------------------------------
// Signatures

/// Signatures paired with their names.
pub open spec fn named_signatures(s: Seq<(Signature, String)>) -> Seq<(Seq<char>, (Signature, String))> {
    s.map_values(|p: (Signature, String)| (p.1@, p))
}

/// The signatures ordered by name, as the signature list shows them.
pub fn sort_signatures(signatures: Vec<(Signature, String)>) -> (r: Vec<(Signature, String)>)
    ensures
        r@ == sort_by_text(named_signatures(signatures@)).map_values(|p: (Seq<char>, (Signature, String))| p.1),
{
    let ghost all = signatures@;
    let mut rest = signatures;
    let n = rest.len();
    let mut keyed: Vec<(Vec<char>, (Signature, String))> = Vec::new();
    let mut i: usize = 0;
    while rest.len() > 0
        invariant
            i + rest@.len() == all.len(),
            all.len() == n,
            rest@ == all.skip(i as int),
            text_keyed(keyed@) == named_signatures(all.take(i as int)),
        decreases rest@.len(),
    {
        let x = rest.remove(0);
        assert(x == all[i as int]);
        assert(rest@ =~= all.skip(i + 1));
        let k = str_chars(x.1.as_str());
        let ghost before = keyed@;
        keyed.push((k, x));
        assert(all.take(i + 1) =~= all.take(i as int).push(all[i as int]));
        assert(text_keyed(keyed@) =~= text_keyed(before).push((k@, x)));
        assert(named_signatures(all.take(i + 1)) =~= named_signatures(all.take(i as int)).push((x.1@, x)));
        i += 1;
    }
    assert(all.take(i as int) =~= all);
    let sorted = sort_text_keyed(keyed);
    let ghost sv = sorted@;
    let r = strip_keys(sorted);
    proof {
        assert forall|k: int| 0 <= k < r@.len() implies r@[k] == sort_by_text(named_signatures(all))[k].1 by {
            assert(text_keyed(sv)[k] == (sv[k].0@, sv[k].1));
        }
        assert(r@ =~= sort_by_text(named_signatures(all)).map_values(|p: (Seq<char>, (Signature, String))| p.1));
    }
    r
}

} // verus!
