//! Walking the tag reference graph from one tag, as an indented tree: down through the tags a
//! tag refers to, or up through the tags that refer to it.
use vstd::prelude::*;
use std::collections::{HashMap, HashSet};
use crate::bytes::{read_u32_at, read_u64_at, Endian};
use crate::cache::{EntryInfo, TagCache};
use crate::classes::ClassRegistry;
use crate::history::{format_tag_entry, tag_entry_text};
use crate::rawstrings::{blob_size_ok, blob_strings, read_raw_string_blob};
use crate::scanner::{word_at, word_count, ScanResult};
use crate::strutil::{decimal, hex_upper, push_char, push_decimal, push_hex_upper, push_str};
use crate::tagsearch::{
    cache_lookup,
    entry_lookup,
    entry_of,
    extended_file_hashes,
    extended_hash32,
    extended_hashes,
    index_exact,
    index_tag_cache,
    last_index_of,
    lemma_last_index_of,
    sort_by_offset,
    ScannedHashWithEntry,
};
use crate::taghash::TagHash;
use crate::version::GameVersion;

verus! {

broadcast use vstd::std_specs::hash::group_hash_axioms;

/// Which way a traversal follows references.
#[derive(Clone, Copy, Debug, PartialEq, Eq, Structural)]
pub enum TraversalDirection {
    /// To the tags that refer to a tag.
    Up,
    /// To the tags a tag refers to.
    Down,
}

/// What a traversal reads of the package lookup tables.
pub struct PackageLookup {
    /// Package entry of each tag.
    pub entries: HashMap<u32, EntryInfo>,
    /// The 32-bit tag of each 64-bit one.
    pub tag64_entries: HashMap<u64, u32>,
    /// The tags that also have a 64-bit hash.
    pub hash64_tags: HashSet<u32>,
    /// Tags with a name.
    pub named_tags: Vec<(TagHash, String)>,
    pub version: GameVersion,
}

/// A tag reached by a traversal, with what was found below it.
pub struct TraversedTag {
    pub tag: TagHash,
    pub entry: Option<EntryInfo>,
    /// Why the traversal did not go below this tag, where it stopped for a reason.
    pub reason: Option<String>,
    pub subtags: Vec<TraversedTag>,
}

/// A traversed tag as plain values.
pub struct TraversedTagModel {
    pub tag: u32,
    pub entry: Option<EntryInfo>,
    pub reason: Option<Seq<char>>,
    pub subtags: Seq<TraversedTagModel>,
}

/// The plain values of a traversed tag and of everything below it.
pub open spec fn tree_model(t: TraversedTag) -> TraversedTagModel
    decreases t,
{
    TraversedTagModel {
        tag: t.tag.0,
        entry: t.entry,
        reason: match t.reason {
            Some(s) => Some(s@),
            None => None,
        },
        subtags: Seq::new(
            t.subtags@.len(),
            |i: int|
                if 0 <= i < t.subtags@.len() {
                    proof {
                        assert(decreases_to!(t => t.subtags));
                        assert(decreases_to!(t.subtags => t.subtags@));
                        assert(decreases_to!(t.subtags@ => t.subtags@[i]));
                    }
                    tree_model(t.subtags@[i])
                } else {
                    TraversedTagModel { tag: 0, entry: None, reason: None, subtags: seq![] }
                },
        ),
    }
}

/// The plain values of a list of traversed tags.
pub open spec fn tree_models(ts: Seq<TraversedTag>) -> Seq<TraversedTagModel> {
    ts.map_values(|t: TraversedTag| tree_model(t))
}

/// A traversed tag with nothing below it.
pub open spec fn leaf_model(tag: u32, entry: Option<EntryInfo>, reason: Option<Seq<char>>) -> TraversedTagModel {
    TraversedTagModel { tag, entry, reason, subtags: seq![] }
}

/// A piece of the text a traversal writes: text, or the place where the raw strings of a tag go
/// (with the line prefix to write them with).
pub enum TraversalOutput {
    Text(String),
    RawStrings(TagHash, String),
}

/// A piece of output as plain values: no tag and the text, or the tag and the line prefix.
pub open spec fn output_piece(o: TraversalOutput) -> (Option<u32>, Seq<char>) {
    match o {
        TraversalOutput::Text(s) => (None, s@),
        TraversalOutput::RawStrings(t, h) => (Some(t.0), h@),
    }
}

/// Pieces of output as plain values.
pub open spec fn output_pieces(os: Seq<TraversalOutput>) -> Seq<(Option<u32>, Seq<char>)> {
    os.map_values(|o: TraversalOutput| output_piece(o))
}

/// A text piece.
pub open spec fn text(s: Seq<char>) -> (Option<u32>, Seq<char>) {
    (None, s)
}

/// What a traversal works on.
pub struct TraversalScope {
    pub cache: Seq<(TagHash, ScanResult)>,
    pub lookup: PackageLookup,
    pub reg: ClassRegistry,
    pub depth_limit: nat,
    pub show_strings: bool,
    pub direction: TraversalDirection,
}

/// The scope of a traversal from its arguments.
pub open spec fn scope_of(
    cache: TagCache,
    lookup: PackageLookup,
    reg: ClassRegistry,
    depth_limit: usize,
    show_strings: bool,
    direction: TraversalDirection,
) -> TraversalScope {
    TraversalScope { cache: cache.hashes@, lookup, reg, depth_limit: depth_limit as nat, show_strings, direction }
}

/// The label of a tag in a traversal (see `tag_entry_text`).
pub open spec fn tag_label(lookup: PackageLookup, reg: ClassRegistry, t: u32) -> Seq<char> {
    tag_entry_text(
        TagHash(t),
        entry_of(lookup.entries@, t),
        lookup.named_tags@,
        reg,
        lookup.hash64_tags@.contains(t),
        lookup.version,
    )
}

/// The first line written for a tag reached through a reference at `offset`.
pub open spec fn first_line(lookup: PackageLookup, reg: ClassRegistry, t: u32, offset: u64) -> Seq<char> {
    tag_label(lookup, reg, t) + " @ 0x"@ + hex_upper(offset as nat, 1) + seq!['\n']
}

/// The branch drawn before a child: a corner before the last one, a tee before the others.
pub open spec fn branch(last: bool) -> Seq<char> {
    if last {
        seq!['└']
    } else {
        seq!['├']
    }
}

/// The prefix of the lines below a tag: each pipe of the stack followed by three spaces.
pub open spec fn line_header(pipes: Seq<char>) -> Seq<char>
    decreases pipes.len(),
{
    if pipes.len() == 0 {
        seq![]
    } else {
        line_header(pipes.drop_last()) + seq![pipes.last(), ' ', ' ', ' ']
    }
}

/// How the offset of a reference is written: the marker offset of a tag header reference, or
/// hexadecimal.
pub open spec fn offset_label(offset: u64) -> Seq<char> {
    if offset == u64::MAX {
        "TagHeader reference"@
    } else {
        "0x"@ + hex_upper(offset as nat, 1)
    }
}

/// Whether a class is never scanned below (unknown and localized string data).
pub open spec fn blocked_reference(reference: u32) -> bool {
    reference == 0x808099F1 || reference == 0x80809A8A
}

/// The tags in `s`, each once, at its first place.
pub open spec fn first_occurrences(s: Seq<u32>) -> Seq<u32>
    decreases s.len(),
{
    if s.len() == 0 {
        seq![]
    } else if s.drop_last().contains(s.last()) {
        first_occurrences(s.drop_last())
    } else {
        first_occurrences(s.drop_last()).push(s.last())
    }
}

/// The tags a traversal goes to from a scanned tag, with the offsets of the references: down,
/// the references by offset; up, each referring tag once, at offset 0.
pub open spec fn children_of(
    direction: TraversalDirection,
    scan: ScanResult,
    entries: Map<u32, EntryInfo>,
    m64: Map<u64, u32>,
) -> Seq<(u32, u64)> {
    match direction {
        TraversalDirection::Down => sort_by_offset(extended_hashes(scan, entries, m64)).map_values(
            |h: ScannedHashWithEntry| (extended_hash32(h.hash, m64), h.offset),
        ),
        TraversalDirection::Up => first_occurrences(scan.references@.map_values(|t: TagHash| t.0)).map_values(
            |t: u32| (t, 0u64),
        ),
    }
}

/// What is written and listed for a child `t` (at `offset`) of `tag` that was seen before:
/// a line for it (but for a self reference), and a leaf in the tree unless it is the parent.
pub open spec fn seen_child(
    lookup: PackageLookup,
    reg: ClassRegistry,
    tag: u32,
    parent: u32,
    t: u32,
    offset: u64,
    last: bool,
    lh: Seq<char>,
) -> (Seq<TraversedTagModel>, Seq<(Option<u32>, Seq<char>)>) {
    let entry = entry_of(lookup.entries@, t);
    let line = lh + branch(last) + "──"@ + tag_label(lookup, reg, t) + " @ "@ + offset_label(offset);
    if entry is Some && entry->0.file_type != 8 && entry->0.file_subtype != 16 {
        (seq![leaf_model(t, entry, None)], seq![text(line + seq!['\n'])])
    } else if t == parent {
        (seq![], seq![text(line + " (parent)\n"@)])
    } else if t == tag {
        (seq![], seq![])
    } else {
        (seq![leaf_model(t, entry, Some("Already traversed"@))], seq![text(line + " (already traversed)\n"@)])
    }
}

/// Traversal of `tag` (reached from `parent` through a reference at `offset`) with the tags
/// already seen and the pipes of the levels above: the tree below it, the output written, and
/// the tags seen afterwards.
pub open spec fn traverse(
    sc: TraversalScope,
    tag: u32,
    parent: u32,
    offset: u64,
    seen: Set<u32>,
    pipes: Seq<char>,
) -> (TraversedTagModel, Seq<(Option<u32>, Seq<char>)>, Set<u32>)
    decreases (if pipes.len() <= sc.depth_limit { sc.depth_limit - pipes.len() } else { 0 }), 1int, 0int,
{
    let seen1 = seen.insert(tag);
    let entry = entry_of(sc.lookup.entries@, tag);
    let first = text(first_line(sc.lookup, sc.reg, tag, offset));
    if entry is Some && blocked_reference(entry->0.reference) {
        (
            leaf_model(
                tag,
                entry,
                Some("Reference 0x"@ + hex_upper(entry->0.reference as nat, 8) + " is blocked from being scanned"@),
            ),
            seq![first],
            seen1,
        )
    } else if pipes.len() >= sc.depth_limit {
        (
            leaf_model(tag, entry, Some("Depth limit reached ("@ + decimal(sc.depth_limit) + seq![')'])),
            seq![first, text(line_header(pipes) + "└ Depth limit reached ("@ + decimal(sc.depth_limit) + ")\n"@)],
            seen1,
        )
    } else {
        match cache_lookup(sc.cache, tag) {
            None => (leaf_model(tag, entry, Some("Tag not found in cache"@)), seq![first], seen1),
            Some(scan) => {
                let ch = children_of(sc.direction, scan, sc.lookup.entries@, sc.lookup.tag64_entries@);
                if ch.len() == 0 {
                    (leaf_model(tag, entry, None), seq![first], seen1)
                } else {
                    let lh = line_header(pipes);
                    let (subs, ps, s2) = traverse_children(sc, tag, parent, ch, 0, seen1, pipes);
                    (
                        TraversedTagModel { tag, entry, reason: None, subtags: subs },
                        seq![first] + (if sc.show_strings { seq![(Some(tag), lh)] } else { seq![] }) + ps + seq![
                            text(lh + seq!['\n']),
                        ],
                        s2,
                    )
                }
            },
        }
    }
}

/// Traversal of the children `ch[i..]` of `tag`, whose own pipes are `pipes`.
pub open spec fn traverse_children(
    sc: TraversalScope,
    tag: u32,
    parent: u32,
    ch: Seq<(u32, u64)>,
    i: nat,
    seen: Set<u32>,
    pipes: Seq<char>,
) -> (Seq<TraversedTagModel>, Seq<(Option<u32>, Seq<char>)>, Set<u32>)
    decreases (if pipes.len() <= sc.depth_limit { sc.depth_limit - pipes.len() } else { 0 }), 0int, ch.len() - i,
{
    if i >= ch.len() || pipes.len() >= sc.depth_limit {
        (seq![], seq![], seen)
    } else {
        let (t, off) = ch[i as int];
        let last = i + 1 == ch.len();
        let lh = line_header(pipes);
        if seen.contains(t) {
            let (m, p) = seen_child(sc.lookup, sc.reg, tag, parent, t, off, last, lh);
            let (rest, rp, s) = traverse_children(sc, tag, parent, ch, i + 1, seen, pipes);
            (m + rest, p + rp, s)
        } else {
            let pipes2 = pipes.push(if last { ' ' } else { '│' });
            let (sub, sp, s2) = traverse(sc, t, tag, off, seen, pipes2);
            let (rest, rp, s3) = traverse_children(sc, tag, parent, ch, i + 1, s2, pipes);
            (seq![sub] + rest, seq![text(lh + branch(last) + "──"@)] + sp + rp, s3)
        }
    }
}

/// Levels of a traversed tree below its root (0 for a leaf).
pub open spec fn tree_height(m: TraversedTagModel) -> nat
    decreases m,
{
    if m.subtags.len() == 0 {
        0
    } else {
        1 + subtrees_height(m.subtags, m.subtags.len() as int)
    }
}

/// The greatest height among the first `n` trees.
pub open spec fn subtrees_height(ts: Seq<TraversedTagModel>, n: int) -> nat
    decreases ts, n,
{
    if n <= 0 || n > ts.len() {
        0
    } else {
        let h = tree_height(ts[n - 1]);
        let rest = subtrees_height(ts, n - 1);
        if h > rest {
            h
        } else {
            rest
        }
    }
}

proof fn lemma_subtrees_height_concat(a: Seq<TraversedTagModel>, b: Seq<TraversedTagModel>, bound: nat)
    requires
        subtrees_height(a, a.len() as int) <= bound,
        subtrees_height(b, b.len() as int) <= bound,
    ensures
        subtrees_height(a + b, (a + b).len() as int) <= bound,
    decreases b.len(),
{
    if b.len() == 0 {
        assert(a + b =~= a);
    } else {
        let c = a + b;
        let b2 = b.drop_last();
        assert(c.drop_last() =~= a + b2);
        assert(c[c.len() - 1] == b[b.len() - 1]);
        lemma_subtrees_height_prefix(b, b2);
        lemma_subtrees_height_concat(a, b2, bound);
        lemma_subtrees_height_prefix(c, a + b2);
    }
}

proof fn lemma_subtrees_height_prefix(c: Seq<TraversedTagModel>, p: Seq<TraversedTagModel>)
    requires
        p.len() <= c.len(),
        forall|i: int| 0 <= i < p.len() ==> p[i] == c[i],
    ensures
        subtrees_height(p, p.len() as int) == subtrees_height(c, p.len() as int),
        subtrees_height(c, p.len() as int) <= subtrees_height(c, c.len() as int),
    decreases c.len() - p.len(), p.len(),
{
    lemma_subtrees_height_same(c, p, p.len() as int);
    lemma_subtrees_height_mono(c, p.len() as int, c.len() as int);
}

proof fn lemma_subtrees_height_same(c: Seq<TraversedTagModel>, p: Seq<TraversedTagModel>, n: int)
    requires
        0 <= n <= p.len() <= c.len(),
        forall|i: int| 0 <= i < p.len() ==> p[i] == c[i],
    ensures
        subtrees_height(p, n) == subtrees_height(c, n),
    decreases n,
{
    if n > 0 {
        lemma_subtrees_height_same(c, p, n - 1);
    }
}

proof fn lemma_subtrees_height_mono(c: Seq<TraversedTagModel>, n: int, m: int)
    requires
        0 <= n <= m <= c.len(),
    ensures
        subtrees_height(c, n) <= subtrees_height(c, m),
    decreases m - n,
{
    if n < m {
        lemma_subtrees_height_mono(c, n, m - 1);
    }
}

/// A traversal goes no deeper than its depth limit: below a tag reached with `pipes` levels
/// above it, the tree has at most `depth_limit - pipes.len()` levels.
pub proof fn lemma_traverse_depth(sc: TraversalScope, tag: u32, parent: u32, offset: u64, seen: Set<u32>, pipes: Seq<char>)
    requires
        pipes.len() <= sc.depth_limit,
    ensures
        tree_height(traverse(sc, tag, parent, offset, seen, pipes).0) <= sc.depth_limit - pipes.len(),
    decreases sc.depth_limit - pipes.len(), 1int, 0int,
{
    let entry = entry_of(sc.lookup.entries@, tag);
    if entry is Some && blocked_reference(entry->0.reference) {
    } else if pipes.len() >= sc.depth_limit {
    } else {
        match cache_lookup(sc.cache, tag) {
            None => {},
            Some(scan) => {
                let ch = children_of(sc.direction, scan, sc.lookup.entries@, sc.lookup.tag64_entries@);
                if ch.len() > 0 {
                    lemma_children_depth(sc, tag, parent, ch, 0, seen.insert(tag), pipes);
                }
            },
        }
    }
}

/// The trees below the children `ch[i..]` of a tag with `pipes` levels above it have at most
/// `depth_limit - pipes.len() - 1` levels each.
pub proof fn lemma_children_depth(
    sc: TraversalScope,
    tag: u32,
    parent: u32,
    ch: Seq<(u32, u64)>,
    i: nat,
    seen: Set<u32>,
    pipes: Seq<char>,
)
    requires
        pipes.len() < sc.depth_limit,
    ensures
        ({
            let subs = traverse_children(sc, tag, parent, ch, i, seen, pipes).0;
            subtrees_height(subs, subs.len() as int) < sc.depth_limit - pipes.len()
        }),
    decreases sc.depth_limit - pipes.len(), 0int, ch.len() - i,
{
    let bound = (sc.depth_limit - pipes.len() - 1) as nat;
    if i >= ch.len() {
    } else {
        let (t, off) = ch[i as int];
        let last = i + 1 == ch.len();
        let lh = line_header(pipes);
        if seen.contains(t) {
            let (m, p) = seen_child(sc.lookup, sc.reg, tag, parent, t, off, last, lh);
            let (rest, rp, s) = traverse_children(sc, tag, parent, ch, i + 1, seen, pipes);
            lemma_children_depth(sc, tag, parent, ch, i + 1, seen, pipes);
            assert(subtrees_height(m, m.len() as int) == 0) by {
                reveal_with_fuel(subtrees_height, 2);
                if m.len() == 1 {
                    assert(tree_height(m[0]) == 0);
                }
            }
            lemma_subtrees_height_concat(m, rest, bound);
        } else {
            let pipes2 = pipes.push(if last { ' ' } else { '│' });
            let (sub, sp, s2) = traverse(sc, t, tag, off, seen, pipes2);
            let (rest, rp, s3) = traverse_children(sc, tag, parent, ch, i + 1, s2, pipes);
            lemma_traverse_depth(sc, t, tag, off, seen, pipes2);
            lemma_children_depth(sc, tag, parent, ch, i + 1, s2, pipes);
            assert(subtrees_height(seq![sub], 1) == tree_height(sub)) by {
                reveal_with_fuel(subtrees_height, 2);
            }
            lemma_subtrees_height_concat(seq![sub], rest, bound);
        }
    }
}

/// Every tag a traversal goes to stays seen: the tags seen afterwards include those seen
/// before and the tag itself.
pub proof fn lemma_traverse_seen(sc: TraversalScope, tag: u32, parent: u32, offset: u64, seen: Set<u32>, pipes: Seq<char>)
    ensures
        seen.insert(tag).subset_of(traverse(sc, tag, parent, offset, seen, pipes).2),
    decreases (if pipes.len() <= sc.depth_limit { sc.depth_limit - pipes.len() } else { 0 }), 1int, 0int,
{
    let entry = entry_of(sc.lookup.entries@, tag);
    if entry is Some && blocked_reference(entry->0.reference) {
    } else if pipes.len() >= sc.depth_limit {
    } else {
        match cache_lookup(sc.cache, tag) {
            None => {},
            Some(scan) => {
                let ch = children_of(sc.direction, scan, sc.lookup.entries@, sc.lookup.tag64_entries@);
                if ch.len() > 0 {
                    lemma_children_seen(sc, tag, parent, ch, 0, seen.insert(tag), pipes);
                }
            },
        }
    }
}

/// Traversing children only adds to the tags seen.
pub proof fn lemma_children_seen(
    sc: TraversalScope,
    tag: u32,
    parent: u32,
    ch: Seq<(u32, u64)>,
    i: nat,
    seen: Set<u32>,
    pipes: Seq<char>,
)
    ensures
        seen.subset_of(traverse_children(sc, tag, parent, ch, i, seen, pipes).2),
    decreases (if pipes.len() <= sc.depth_limit { sc.depth_limit - pipes.len() } else { 0 }), 0int, ch.len() - i,
{
    if i >= ch.len() || pipes.len() >= sc.depth_limit {
    } else {
        let (t, off) = ch[i as int];
        let last = i + 1 == ch.len();
        if seen.contains(t) {
            lemma_children_seen(sc, tag, parent, ch, i + 1, seen, pipes);
        } else {
            let pipes2 = pipes.push(if last { ' ' } else { '│' });
            let (sub, sp, s2) = traverse(sc, t, tag, off, seen, pipes2);
            lemma_traverse_seen(sc, t, tag, off, seen, pipes2);
            lemma_children_seen(sc, tag, parent, ch, i + 1, s2, pipes);
        }
    }
}

fn push_line_header(s: &mut String, pipes: &Vec<char>)
    ensures
        final(s)@ == old(s)@ + line_header(pipes@),
{
    let mut k: usize = 0;
    assert(pipes@.take(0) =~= Seq::<char>::empty());
    assert(old(s)@ + line_header(seq![]) =~= old(s)@);
    while k < pipes.len()
        invariant
            k <= pipes@.len(),
            s@ == old(s)@ + line_header(pipes@.take(k as int)),
        decreases pipes@.len() - k,
    {
        let c = pipes[k];
        push_char(s, c);
        push_str(s, "   ");
        proof {
            reveal_strlit("   ");
            assert(pipes@.take(k + 1).drop_last() =~= pipes@.take(k as int));
            assert(s@ =~= old(s)@ + line_header(pipes@.take(k + 1)));
        }
        k += 1;
    }
    assert(pipes@.take(k as int) =~= pipes@);
}

fn child_list(scan: &ScanResult, lookup: &PackageLookup, direction: TraversalDirection) -> (r: Vec<(u32, u64)>)
    ensures
        r@ == children_of(direction, *scan, lookup.entries@, lookup.tag64_entries@),
{
    let mut r: Vec<(u32, u64)> = Vec::new();
    match direction {
        TraversalDirection::Down => {
            let hs = extended_file_hashes(scan, &lookup.entries, &lookup.tag64_entries);
            let ghost f = |h: ScannedHashWithEntry| (extended_hash32(h.hash, lookup.tag64_entries@), h.offset);
            let mut i: usize = 0;
            while i < hs.len()
                invariant
                    i <= hs@.len(),
                    r@ == hs@.take(i as int).map_values(f),
                    f == (|h: ScannedHashWithEntry| (extended_hash32(h.hash, lookup.tag64_entries@), h.offset)),
                decreases hs@.len() - i,
            {
                let t = hs[i].hash.hash32(&lookup.tag64_entries);
                r.push((t.0, hs[i].offset));
                i += 1;
                assert(r@ =~= hs@.take(i as int).map_values(f));
            }
            assert(hs@.take(i as int) =~= hs@);
        },
        TraversalDirection::Up => {
            let ghost refs = scan.references@.map_values(|t: TagHash| t.0);
            let mut added: HashSet<u32> = HashSet::new();
            let mut i: usize = 0;
            assert(refs.take(0) =~= Seq::<u32>::empty());
            while i < scan.references.len()
                invariant
                    i <= scan.references@.len(),
                    refs == scan.references@.map_values(|t: TagHash| t.0),
                    r@ == first_occurrences(refs.take(i as int)).map_values(|t: u32| (t, 0u64)),
                    forall|t: u32| added@.contains(t) <==> refs.take(i as int).contains(t),
                decreases scan.references@.len() - i,
            {
                let t = scan.references[i].0;
                let ghost pre = refs.take(i as int);
                let ghost now = refs.take(i + 1);
                assert(now.drop_last() =~= pre);
                assert(now.last() == t);
                if !added.contains(&t) {
                    added.insert(t);
                    r.push((t, 0u64));
                    assert(r@ =~= first_occurrences(now).map_values(|t: u32| (t, 0u64)));
                }
                assert forall|u: u32| added@.contains(u) <==> now.contains(u) by {
                    if now.contains(u) {
                        let j = choose|j: int| 0 <= j < now.len() && now[j] == u;
                        if j < pre.len() {
                            assert(pre[j] == u);
                        }
                    }
                    if pre.contains(u) {
                        let j = choose|j: int| 0 <= j < pre.len() && pre[j] == u;
                        assert(now[j] == u);
                    }
                }
                i += 1;
            }
            assert(refs.take(i as int) =~= refs);
        },
    }
    r
}

fn string_of(t: &str) -> (r: String)
    ensures
        r@ == t@,
{
    String::from_str(t)
}

/// The plain value of an optional string.
pub open spec fn opt_view(s: Option<String>) -> Option<Seq<char>> {
    match s {
        Some(s) => Some(s@),
        None => None,
    }
}

fn leaf(tag: TagHash, entry: Option<EntryInfo>, reason: Option<String>) -> (r: TraversedTag)
    ensures
        tree_model(r) == leaf_model(tag.0, entry, opt_view(reason)),
{
    let r = TraversedTag { tag, entry, reason, subtags: Vec::new() };
    assert(tree_model(r).subtags =~= seq![]);
    r
}

fn tag_label_string(lookup: &PackageLookup, reg: &ClassRegistry, t: u32) -> (r: String)
    ensures
        r@ == tag_label(*lookup, *reg, t),
{
    format_tag_entry(
        TagHash(t),
        entry_lookup(&lookup.entries, t),
        lookup.named_tags.as_slice(),
        reg,
        lookup.hash64_tags.contains(&t),
        lookup.version,
    )
}

fn write_lead(out: &mut Vec<TraversalOutput>, header: &String, last: bool)
    ensures
        output_pieces(final(out)@) == output_pieces(old(out)@) + seq![text(header@ + branch(last) + "──"@)],
{
    let mut lead = String::new();
    push_str(&mut lead, header.as_str());
    if last {
        push_char(&mut lead, '└');
    } else {
        push_char(&mut lead, '├');
    }
    push_str(&mut lead, "──");
    assert(lead@ =~= header@ + branch(last) + "──"@);
    out.push(TraversalOutput::Text(lead));
    assert(output_pieces(out@) =~= output_pieces(old(out)@) + seq![text(header@ + branch(last) + "──"@)]);
}

fn write_seen_child(
    out: &mut Vec<TraversalOutput>,
    subtags: &mut Vec<TraversedTag>,
    header: &String,
    last: bool,
    t: u32,
    off: u64,
    tag: u32,
    parent: u32,
    lookup: &PackageLookup,
    reg: &ClassRegistry,
)
    ensures
        ({
            let (m, p) = seen_child(*lookup, *reg, tag, parent, t, off, last, header@);
            &&& output_pieces(final(out)@) == output_pieces(old(out)@) + p
            &&& tree_models(final(subtags)@) == tree_models(old(subtags)@) + m
        }),
{
    let ghost (m, p) = seen_child(*lookup, *reg, tag, parent, t, off, last, header@);
    let e = entry_lookup(&lookup.entries, t);
    let mut line = String::new();
    push_str(&mut line, header.as_str());
    if last {
        push_char(&mut line, '└');
    } else {
        push_char(&mut line, '├');
    }
    push_str(&mut line, "──");
    let label = tag_label_string(lookup, reg, t);
    push_str(&mut line, label.as_str());
    push_str(&mut line, " @ ");
    if off == u64::MAX {
        push_str(&mut line, "TagHeader reference");
    } else {
        push_str(&mut line, "0x");
        push_hex_upper(&mut line, off, 1);
    }
    assert(line@ =~= header@ + branch(last) + "──"@ + tag_label(*lookup, *reg, t) + " @ "@ + offset_label(off));
    let listed = match e {
        Some(en) => en.file_type != 8 && en.file_subtype != 16,
        None => false,
    };
    let ghost base = line@;
    if listed {
        push_char(&mut line, '\n');
        assert(line@ =~= base + seq!['\n']);
        let ghost piece = text(line@);
        out.push(TraversalOutput::Text(line));
        subtags.push(leaf(TagHash(t), e, None));
        assert(p == seq![piece]);
    } else if t == parent {
        push_str(&mut line, " (parent)\n");
        let ghost piece = text(line@);
        out.push(TraversalOutput::Text(line));
        assert(p == seq![piece]);
    } else if t == tag {
        assert(p == Seq::<(Option<u32>, Seq<char>)>::empty());
    } else {
        push_str(&mut line, " (already traversed)\n");
        let ghost piece = text(line@);
        out.push(TraversalOutput::Text(line));
        subtags.push(leaf(TagHash(t), e, Some(string_of("Already traversed"))));
        assert(p == seq![piece]);
    }
    assert(output_pieces(out@) =~= output_pieces(old(out)@) + p);
    assert(tree_models(subtags@) =~= tree_models(old(subtags)@) + m);
}

/// Writes the traversal of `tag` (reached from `parent_tag` through a reference at `offset`)
/// to `out` and returns the tree below it. `seen_tags` records the tags traversed; `pipe_stack`
/// holds one pipe per level above (a space below a last child) and is left as it was. A
/// blocked class, the depth limit, a tag missing from the cache or a tag without references
/// ends the walk there; a tag already seen is listed without going below it again (not at all
/// when it refers to itself, and marked when it is the parent).
pub fn traverse_tag(
    out: &mut Vec<TraversalOutput>,
    tag: TagHash,
    parent_tag: TagHash,
    offset: u64,
    seen_tags: &mut HashSet<u32>,
    pipe_stack: &mut Vec<char>,
    depth_limit: usize,
    cache: &TagCache,
    index: &HashMap<u32, usize>,
    lookup: &PackageLookup,
    reg: &ClassRegistry,
    show_strings: bool,
    direction: TraversalDirection,
) -> (r: TraversedTag)
    requires
        index_exact(index@, cache.hashes@),
    ensures
        final(pipe_stack)@ == old(pipe_stack)@,
        ({
            let (m, ps, s) = traverse(
                scope_of(*cache, *lookup, *reg, depth_limit, show_strings, direction),
                tag.0,
                parent_tag.0,
                offset,
                old(seen_tags)@,
                old(pipe_stack)@,
            );
            &&& tree_model(r) == m
            &&& output_pieces(final(out)@) == output_pieces(old(out)@) + ps
            &&& final(seen_tags)@ == s
        }),
    decreases depth_limit - pipe_stack@.len(),
{
    let ghost sc = scope_of(*cache, *lookup, *reg, depth_limit, show_strings, direction);
    let ghost pipes0 = pipe_stack@;
    let ghost out0 = output_pieces(out@);
    seen_tags.insert(tag.0);
    let ghost seen1 = seen_tags@;
    let entry = entry_lookup(&lookup.entries, tag.0);
    let mut first = tag_label_string(lookup, reg, tag.0);
    push_str(&mut first, " @ 0x");
    push_hex_upper(&mut first, offset, 1);
    push_char(&mut first, '\n');
    let ghost first_piece = text(first@);
    assert(first@ =~= first_line(*lookup, *reg, tag.0, offset));
    out.push(TraversalOutput::Text(first));
    assert(output_pieces(out@) =~= out0 + seq![first_piece]);
    if let Some(e) = entry {
        if e.reference == 0x808099F1 || e.reference == 0x80809A8A {
            let mut reason = String::new();
            push_str(&mut reason, "Reference 0x");
            push_hex_upper(&mut reason, e.reference as u64, 8);
            push_str(&mut reason, " is blocked from being scanned");
            return leaf(tag, entry, Some(reason));
        }
    }
    if pipe_stack.len() >= depth_limit {
        let mut line = String::new();
        push_line_header(&mut line, pipe_stack);
        push_str(&mut line, "└ Depth limit reached (");
        push_decimal(&mut line, depth_limit as u64);
        push_str(&mut line, ")\n");
        let ghost second = text(line@);
        out.push(TraversalOutput::Text(line));
        assert(output_pieces(out@) =~= out0 + seq![first_piece, second]);
        let mut reason = String::new();
        push_str(&mut reason, "Depth limit reached (");
        push_decimal(&mut reason, depth_limit as u64);
        push_char(&mut reason, ')');
        assert(reason@ == "Depth limit reached ("@ + decimal(sc.depth_limit) + seq![')']);
        assert(line_header(pipes0) + "└ Depth limit reached ("@ + decimal(sc.depth_limit) + ")\n"@ == second.1);
        assert(traverse(sc, tag.0, parent_tag.0, offset, old(seen_tags)@, pipes0).1 == seq![first_piece, second]);
        return leaf(tag, entry, Some(reason));
    }
    proof {
        lemma_last_index_of(cache.hashes@, tag.0);
    }
    let pos = match index.get(&tag.0) {
        Some(p) => *p,
        None => {
            return leaf(tag, entry, Some(string_of("Tag not found in cache")));
        },
    };
    let children = child_list(&cache.hashes[pos].1, lookup, direction);
    let ghost ch = children@;
    if children.len() == 0 {
        return leaf(tag, entry, None);
    }
    let mut header = String::new();
    push_line_header(&mut header, pipe_stack);
    let ghost lh = header@;
    if show_strings {
        out.push(TraversalOutput::RawStrings(tag, header.clone()));
    }
    let ghost mid = output_pieces(out@);
    assert(mid =~= out0 + seq![first_piece] + (if show_strings { seq![(Some(tag.0), lh)] } else { seq![] }));
    let mut subtags: Vec<TraversedTag> = Vec::new();
    let mut i: usize = 0;
    assert(tree_models(subtags@) =~= seq![]);
    while i < children.len()
        invariant
            i <= ch.len(),
            ch == children@,
            pipe_stack@ == pipes0,
            pipes0 == old(pipe_stack)@,
            pipes0.len() < depth_limit,
            index_exact(index@, cache.hashes@),
            sc == scope_of(*cache, *lookup, *reg, depth_limit, show_strings, direction),
            lh == line_header(pipes0),
            header@ == lh,
            ({
                let (rest, rp, fin) = traverse_children(sc, tag.0, parent_tag.0, ch, i as nat, seen_tags@, pipes0);
                let (all, ap, afin) = traverse_children(sc, tag.0, parent_tag.0, ch, 0, seen1, pipes0);
                &&& tree_models(subtags@) + rest == all
                &&& output_pieces(out@) + rp == mid + ap
                &&& fin == afin
            }),
        decreases ch.len() - i,
    {
        let (t, off) = children[i];
        let last = i + 1 == children.len();
        let ghost seen_before = seen_tags@;
        let ghost subs_before = tree_models(subtags@);
        let ghost out_before = output_pieces(out@);
        let ghost cur = traverse_children(sc, tag.0, parent_tag.0, ch, i as nat, seen_before, pipes0);
        if last {
            pipe_stack.push(' ');
        } else {
            pipe_stack.push('│');
        }
        if seen_tags.contains(&t) {
            write_seen_child(out, &mut subtags, &header, last, t, off, tag.0, parent_tag.0, lookup, reg);
            proof {
                let (m, p) = seen_child(*lookup, *reg, tag.0, parent_tag.0, t, off, last, lh);
                let (rest, rp, fin) = traverse_children(sc, tag.0, parent_tag.0, ch, (i + 1) as nat, seen_tags@, pipes0);
                assert(cur == (m + rest, p + rp, fin));
                assert(tree_models(subtags@) + rest =~= subs_before + (m + rest));
                assert(output_pieces(out@) + rp =~= out_before + (p + rp));
            }
        } else {
            write_lead(out, &header, last);
            let ghost out_lead = output_pieces(out@);
            let ghost pipes2 = pipe_stack@;
            let sub = traverse_tag(
                out,
                TagHash(t),
                tag,
                off,
                seen_tags,
                pipe_stack,
                depth_limit,
                cache,
                index,
                lookup,
                reg,
                show_strings,
                direction,
            );
            subtags.push(sub);
            proof {
                let (sm, sp, s2) = traverse(sc, t, tag.0, off, seen_before, pipes2);
                let (rest, rp, fin) = traverse_children(sc, tag.0, parent_tag.0, ch, (i + 1) as nat, seen_tags@, pipes0);
                assert(cur == (seq![sm] + rest, seq![text(lh + branch(last) + "──"@)] + sp + rp, fin));
                assert(tree_models(subtags@) =~= subs_before + seq![sm]);
                assert(tree_models(subtags@) + rest =~= subs_before + (seq![sm] + rest));
                assert(output_pieces(out@) + rp =~= out_before + (seq![text(lh + branch(last) + "──"@)] + sp + rp));
            }
        }
        pipe_stack.pop();
        proof {
            assert(pipe_stack@ =~= pipes0);
        }
        i += 1;
    }
    let mut closing = header;
    push_char(&mut closing, '\n');
    let ghost closing_piece = text(closing@);
    out.push(TraversalOutput::Text(closing));
    let r = TraversedTag { tag, entry, reason: None, subtags };
    proof {
        assert(cache_lookup(sc.cache, tag.0) == Some(cache.hashes@[pos as int].1));
        assert(ch == children_of(direction, cache.hashes@[pos as int].1, lookup.entries@, lookup.tag64_entries@));
        assert(closing_piece == text(lh + seq!['\n']));
        assert(tree_model(r).reason is None);
        let (all, ap, afin) = traverse_children(sc, tag.0, parent_tag.0, ch, 0, seen1, pipes0);
        assert(seen_tags@ == afin);
        assert(tree_models(r.subtags@) + seq![] =~= tree_models(r.subtags@));
        assert(tree_model(r).subtags =~= all);
        assert(output_pieces(out@) =~= out0 + seq![first_piece] + (if show_strings {
            seq![(Some(tag.0), lh)]
        } else {
            seq![]
        }) + ap + seq![closing_piece]);
    }
    r
}

/// The marker word before a raw string blob that a traversal lists.
pub open spec fn is_raw_string_marker(w: u32) -> bool {
    w == 0x80800065
}

/// The strings of the raw string blobs in the first `n` little-endian words of tag data.
pub open spec fn listed_raw_strings(legacy: bool, data: Seq<u8>, n: nat) -> Seq<Seq<char>>
    decreases n,
{
    if n == 0 {
        seq![]
    } else {
        let rest = listed_raw_strings(legacy, data, (n - 1) as nat);
        let o = 4 * (n - 1);
        if is_raw_string_marker(word_at(Endian::Little, data, o)) {
            rest + blob_strings(legacy, data, o).map_values(|p: (int, Seq<char>)| p.1)
        } else {
            rest
        }
    }
}

/// The first known string of each word, among the first `n` little-endian words of tag data,
/// that the table lists.
pub open spec fn listed_hash_names(data: Seq<u8>, names: Map<u32, Vec<(String, bool)>>, n: nat) -> Seq<Seq<char>>
    decreases n,
{
    if n == 0 {
        seq![]
    } else {
        let rest = listed_hash_names(data, names, (n - 1) as nat);
        let w = word_at(Endian::Little, data, 4 * (n - 1));
        if names.contains_key(w) {
            rest.push(names[w]@[0].0@)
        } else {
            rest
        }
    }
}

/// Strings joined with a comma and a space.
pub open spec fn join_comma(s: Seq<Seq<char>>) -> Seq<char>
    decreases s.len(),
{
    if s.len() == 0 {
        seq![]
    } else if s.len() == 1 {
        s[0]
    } else {
        join_comma(s.drop_last()) + ", "@ + s.last()
    }
}

/// Whether every listed blob of the tag data has a size the buffer can be allocated for.
pub open spec fn listed_blobs_fit(legacy: bool, data: Seq<u8>) -> bool {
    forall|k: int|
        0 <= k < word_count(data) && is_raw_string_marker(#[trigger] word_at(Endian::Little, data, 4 * k))
            ==> blob_size_ok(legacy, data, 4 * k)
}

/// Whether each string list of the table has a first string.
pub open spec fn names_nonempty(names: Map<u32, Vec<(String, bool)>>) -> bool {
    forall|h: u32| #[trigger] names.contains_key(h) ==> names[h]@.len() > 0
}

/// The lines a traversal writes for the raw strings of a tag: its raw string blobs, then the
/// known strings of its words, each line only when there is something to list.
pub open spec fn raw_strings_text(lh: Seq<char>, legacy: bool, data: Seq<u8>, names: Map<u32, Vec<(String, bool)>>) -> Seq<char> {
    let strs = listed_raw_strings(legacy, data, word_count(data));
    let hits = listed_hash_names(data, names, word_count(data));
    (if strs.len() > 0 {
        lh + "├──Raw Strings: ["@ + join_comma(strs) + "]\n"@
    } else {
        seq![]
    }) + (if hits.len() > 0 {
        lh + "├──Raw String Hashes: ["@ + join_comma(hits) + "]\n"@
    } else {
        seq![]
    })
}

fn push_joined(s: &mut String, items: &Vec<String>)
    ensures
        final(s)@ == old(s)@ + join_comma(items@.map_values(|x: String| x@)),
{
    let ghost v = items@.map_values(|x: String| x@);
    let mut i: usize = 0;
    assert(v.take(0) =~= Seq::<Seq<char>>::empty());
    while i < items.len()
        invariant
            i <= items@.len(),
            v == items@.map_values(|x: String| x@),
            s@ == old(s)@ + join_comma(v.take(i as int)),
        decreases items@.len() - i,
    {
        let ghost before = s@;
        if i > 0 {
            push_str(s, ", ");
        }
        push_str(s, items[i].as_str());
        proof {
            assert(v.take(i + 1).drop_last() =~= v.take(i as int));
            if i == 0 {
                assert(join_comma(v.take(1)) == v.take(1)[0]);
            }
            assert(s@ =~= old(s)@ + join_comma(v.take(i + 1)));
        }
        i += 1;
    }
    assert(v.take(i as int) =~= v);
}

/// Whether every listed raw string blob of `data` fits (see `listed_blobs_fit`).
pub fn check_listed_blobs_fit(data: &[u8], legacy: bool) -> (r: bool)
    ensures
        r == listed_blobs_fit(legacy, data@),
{
    let n = data.len() / 4;
    let mut k: usize = 0;
    while k < n
        invariant
            k <= n,
            n == word_count(data@),
            n == data.len() / 4,
            forall|j: int|
                0 <= j < k && is_raw_string_marker(#[trigger] word_at(Endian::Little, data@, 4 * j))
                    ==> blob_size_ok(legacy, data@, 4 * j),
        decreases n - k,
    {
        assert(4 * k + 4 <= data.len()) by (nonlinear_arith)
            requires
                k < n,
                n == data.len() / 4,
        ;
        let o = 4 * k;
        let w = read_u32_at(data, o, Endian::Little);
        assert(w == word_at(Endian::Little, data@, 4 * (k as int)));
        if w == 0x80800065 {
            let fits = if legacy {
                if data.len() - o >= 8 {
                    read_u32_at(data, o + 4, Endian::Big) as u64 <= isize::MAX as u64
                } else {
                    true
                }
            } else {
                if data.len() - o >= 12 {
                    read_u64_at(data, o + 4, Endian::Little) <= isize::MAX as u64
                } else {
                    true
                }
            };
            if !fits {
                return false;
            }
        }
        k += 1;
    }
    true
}

/// Writes the raw strings of a tag the way a traversal lists them below it (see
/// `raw_strings_text`), with the line prefix `line_header`. The raw string blobs follow the
/// marker word 0x80800065; a word that `names` lists adds the first string it knows for it.
pub fn raw_strings_block(
    line_header: &str,
    tag_data: &[u8],
    legacy: bool,
    names: &HashMap<u32, Vec<(String, bool)>>,
) -> (r: String)
    requires
        listed_blobs_fit(legacy, tag_data@),
        names_nonempty(names@),
    ensures
        r@ == raw_strings_text(line_header@, legacy, tag_data@, names@),
{
    let n = tag_data.len() / 4;
    let mut strs: Vec<String> = Vec::new();
    let mut hits: Vec<String> = Vec::new();
    let mut k: usize = 0;
    while k < n
        invariant
            k <= n,
            n == word_count(tag_data@),
            n == tag_data.len() / 4,
            listed_blobs_fit(legacy, tag_data@),
            names_nonempty(names@),
            strs@.map_values(|x: String| x@) == listed_raw_strings(legacy, tag_data@, k as nat),
            hits@.map_values(|x: String| x@) == listed_hash_names(tag_data@, names@, k as nat),
        decreases n - k,
    {
        assert(4 * k + 4 <= tag_data.len()) by (nonlinear_arith)
            requires
                k < n,
                n == tag_data.len() / 4,
        ;
        let o = 4 * k;
        let w = read_u32_at(tag_data, o, Endian::Little);
        assert(w == word_at(Endian::Little, tag_data@, 4 * (k as int)));
        let ghost hits_before = hits@;
        match names.get(&w) {
            Some(v) => {
                hits.push(v[0].0.clone());
                assert(hits@.map_values(|x: String| x@) =~= hits_before.map_values(|x: String| x@).push(names@[w]@[0].0@));
            },
            None => {},
        }
        if w == 0x80800065 {
            let blob = read_raw_string_blob(tag_data, o as u64, legacy);
            let ghost before = strs@;
            let ghost bs = blob_strings(legacy, tag_data@, o as int);
            let mut j: usize = 0;
            while j < blob.len()
                invariant
                    j <= blob@.len(),
                    blob@.len() == bs.len(),
                    forall|q: int| 0 <= q < blob@.len() ==> (#[trigger] blob@[q]).1@ == bs[q].1,
                    strs@.map_values(|x: String| x@) == before.map_values(|x: String| x@) + bs.take(j as int).map_values(
                        |p: (int, Seq<char>)| p.1,
                    ),
                decreases blob@.len() - j,
            {
                let ghost strs_before = strs@;
                let c = blob[j].1.clone();
                assert(c@ == bs[j as int].1);
                strs.push(c);
                proof {
                    assert(strs@.map_values(|x: String| x@) =~= strs_before.map_values(|x: String| x@).push(c@));
                    assert(bs.take(j + 1) =~= bs.take(j as int).push(bs[j as int]));
                    assert(strs@.map_values(|x: String| x@) =~= before.map_values(|x: String| x@) + bs.take(j + 1).map_values(
                        |p: (int, Seq<char>)| p.1,
                    ));
                }
                j += 1;
            }
            assert(bs.take(j as int) =~= bs);
        }
        k += 1;
    }
    let mut out = String::new();
    if strs.len() > 0 {
        push_str(&mut out, line_header);
        push_str(&mut out, "├──Raw Strings: [");
        push_joined(&mut out, &strs);
        push_str(&mut out, "]\n");
    }
    let ghost first = out@;
    if hits.len() > 0 {
        push_str(&mut out, line_header);
        push_str(&mut out, "├──Raw String Hashes: [");
        push_joined(&mut out, &hits);
        push_str(&mut out, "]\n");
    }
    assert(out@ =~= raw_strings_text(line_header@, legacy, tag_data@, names@));
    out
}

/// Traverses from `starting_tag` (see `traverse_tag`): the tree of tags below it and the
/// output written, with no tag seen before, no parent and offset 0.
pub fn traverse_tags(
    starting_tag: TagHash,
    depth_limit: usize,
    cache: &TagCache,
    lookup: &PackageLookup,
    reg: &ClassRegistry,
    show_strings: bool,
    direction: TraversalDirection,
) -> (r: (TraversedTag, Vec<TraversalOutput>))
    ensures
        ({
            let (m, ps, s) = traverse(
                scope_of(*cache, *lookup, *reg, depth_limit, show_strings, direction),
                starting_tag.0,
                u32::MAX,
                0,
                Set::empty(),
                seq![],
            );
            &&& tree_model(r.0) == m
            &&& output_pieces(r.1@) == ps
        }),
{
    let index = index_tag_cache(cache);
    let mut out: Vec<TraversalOutput> = Vec::new();
    let mut seen: HashSet<u32> = HashSet::new();
    let mut pipes: Vec<char> = Vec::new();
    let t = traverse_tag(
        &mut out,
        starting_tag,
        TagHash(u32::MAX),
        0,
        &mut seen,
        &mut pipes,
        depth_limit,
        cache,
        &index,
        lookup,
        reg,
        show_strings,
        direction,
    );
    assert(output_pieces(Seq::<TraversalOutput>::empty()) =~= seq![]);
    assert(pipes@ =~= seq![]);
    (t, out)
}

/// A tag whose entry is of a localized string data class (0x808099F1 or 0x80809A8A) is never
/// expanded: the traversal makes it a leaf whose reason says that its class is blocked from
/// being scanned, whatever the cache holds for it and however deep it is.
pub proof fn lemma_string_data_is_blocked(
    sc: TraversalScope,
    tag: u32,
    parent: u32,
    offset: u64,
    seen: Set<u32>,
    pipes: Seq<char>,
)
    requires
        sc.lookup.entries@.contains_key(tag),
        sc.lookup.entries@[tag].reference == 0x808099F1 || sc.lookup.entries@[tag].reference == 0x80809A8A,
    ensures
        ({
            let t = traverse(sc, tag, parent, offset, seen, pipes).0;
            &&& t.tag == tag
            &&& t.subtags.len() == 0
            &&& t.reason == Some(
                "Reference 0x"@ + hex_upper(sc.lookup.entries@[tag].reference as nat, 8) + " is blocked from being scanned"@,
            )
        }),
{
}

} // verus!
