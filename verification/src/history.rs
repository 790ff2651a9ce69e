//! Navigation history of opened tags, with back and forward.
use vstd::prelude::*;
use crate::cache::EntryInfo;
use crate::classes::{ClassRegistry, spec_class_lookup};
use crate::strutil::{decimal, hex_upper, push_char, push_decimal, push_hex_upper, push_str};
use crate::tagtypes::{TagColor, TagType, tag_type_name, type_for_version};
use crate::taghash::TagHash;
use crate::version::GameVersion;

verus! {

/// Tags opened so far, each with its label and colour, and the position of the one shown.
pub struct TagHistory {
    pub tags: Vec<(TagHash, String, TagColor)>,
    pub current: usize,
}

/// The tags of a history, in order.
pub open spec fn history_tags(tags: Seq<(TagHash, String, TagColor)>) -> Seq<TagHash> {
    tags.map_values(|e: (TagHash, String, TagColor)| e.0)
}

/// The entries of a history as plain values: tag, label and colour.
pub open spec fn history_entries(tags: Seq<(TagHash, String, TagColor)>) -> Seq<(TagHash, Seq<char>, TagColor)> {
    tags.map_values(|e: (TagHash, String, TagColor)| (e.0, e.1@, e.2))
}

/// How many entries opening a tag keeps: those up to the current one.
pub open spec fn kept_on_push(len: nat, current: nat) -> int {
    if current + 1 < len {
        (current + 1) as int
    } else {
        len as int
    }
}

/// The label of an opened tag: its entry's label, else its hash and a note.
pub open spec fn push_label(tag: TagHash, entry: Option<(String, TagColor)>) -> Seq<char> {
    match entry {
        Some(e) => e.0@,
        None => hex_upper(tag.0 as nat, 8) + " (pkg entry not found)"@,
    }
}

/// The colour of an opened tag: its entry's colour, else light red.
pub open spec fn push_color(entry: Option<(String, TagColor)>) -> TagColor {
    match entry {
        Some(e) => e.1,
        None => TagColor::LightRed,
    }
}

/// Going back: one step towards the start, and the tag there.
pub open spec fn step_back(tags: Seq<TagHash>, current: nat) -> (nat, Option<TagHash>) {
    if current > 0 {
        let c = (current - 1) as nat;
        (c, if c < tags.len() { Some(tags[c as int]) } else { None })
    } else {
        (current, None)
    }
}

/// Going forward: one step towards the end, and the tag there.
pub open spec fn step_forward(tags: Seq<TagHash>, current: nat) -> (nat, Option<TagHash>) {
    if current + 1 < tags.len() {
        ((current + 1) as nat, Some(tags[current + 1 as int]))
    } else {
        (current, None)
    }
}

/// Opening a tag: the history after the current position is dropped and the tag added.
pub open spec fn push_tags(tags: Seq<TagHash>, current: nat, tag: TagHash) -> Seq<TagHash> {
    tags.take(if current + 1 < tags.len() { (current + 1) as int } else { tags.len() as int }).push(tag)
}

impl TagHistory {
    /// Position invariant: on an entry, or 0 when empty.
    pub open spec fn wf(&self) -> bool {
        if self.tags@.len() == 0 {
            self.current == 0
        } else {
            self.current < self.tags@.len()
        }
    }

    pub open spec fn spec_tags(&self) -> Seq<TagHash> {
        history_tags(self.tags@)
    }

    /// An empty history.
    pub fn new() -> (r: TagHistory)
        ensures
            r.wf(),
            r.tags@.len() == 0,
            r.current == 0,
    {
        TagHistory { tags: Vec::new(), current: 0 }
    }

    /// Opens `tag`: drops the entries after the current one and adds the tag, labelled with
    /// `entry` when its package entry was found, else with its hash and a note, in light red.
    pub fn push(&mut self, tag: TagHash, entry: Option<(String, TagColor)>)
        requires
            old(self).wf(),
        ensures
            final(self).wf(),
            final(self).spec_tags() == push_tags(old(self).spec_tags(), old(self).current as nat, tag),
            final(self).current == final(self).tags@.len() - 1,
            final(self).tags@.last().1@ == (match entry {
                Some(e) => e.0@,
                None => hex_upper(tag.0 as nat, 8) + " (pkg entry not found)"@,
            }),
            final(self).tags@.last().2 == (match entry {
                Some(e) => e.1,
                None => TagColor::LightRed,
            }),
            history_entries(final(self).tags@) == history_entries(old(self).tags@).take(
                kept_on_push(old(self).tags@.len(), old(self).current as nat),
            ).push((tag, push_label(tag, entry), push_color(entry))),
    {
        let ghost old_tags = self.spec_tags();
        let len = self.tags.len();
        let keep = if self.current < len && self.current + 1 < len { self.current + 1 } else { len };
        self.tags.truncate(keep);
        let (label, color) = match entry {
            Some(e) => e,
            None => {
                let mut s = tag.to_string();
                push_str(&mut s, " (pkg entry not found)");
                (s, TagColor::LightRed)
            },
        };
        self.tags.push((tag, label, color));
        self.current = self.tags.len() - 1;
        assert(self.spec_tags() =~= push_tags(old_tags, old(self).current as nat, tag));
        assert(history_entries(self.tags@) =~= history_entries(old(self).tags@).take(
            kept_on_push(old(self).tags@.len(), old(self).current as nat),
        ).push((tag, push_label(tag, entry), push_color(entry))));
    }

    /// Steps back to the previous tag and returns it; `None` at the start.
    pub fn back(&mut self) -> (r: Option<TagHash>)
        requires
            old(self).wf(),
        ensures
            final(self).wf(),
            final(self).tags == old(self).tags,
            (final(self).current as nat, r) == step_back(old(self).spec_tags(), old(self).current as nat),
    {
        if self.current > 0 {
            self.current -= 1;
            if self.current < self.tags.len() {
                Some(self.tags[self.current].0)
            } else {
                None
            }
        } else {
            None
        }
    }

    /// Steps forward to the next tag and returns it; `None` at the end.
    pub fn forward(&mut self) -> (r: Option<TagHash>)
        requires
            old(self).wf(),
        ensures
            final(self).wf(),
            final(self).tags == old(self).tags,
            (final(self).current as nat, r) == step_forward(old(self).spec_tags(), old(self).current as nat),
    {
        let len = self.tags.len();
        if self.current < len && self.current + 1 < len {
            self.current += 1;
            Some(self.tags[self.current].0)
        } else {
            None
        }
    }
}

/// Going back and then forward returns to where one was, and forward then gives the tag that
/// was shown.
pub proof fn lemma_back_then_forward(tags: Seq<TagHash>, current: nat)
    requires
        current < tags.len(),
        step_back(tags, current).1 is Some,
    ensures
        step_forward(tags, step_back(tags, current).0) == (current, Some(tags[current as int])),
{
}

/// Going forward and then back returns to where one was, and back then gives the tag that was
/// shown.
pub proof fn lemma_forward_then_back(tags: Seq<TagHash>, current: nat)
    requires
        current < tags.len(),
        step_forward(tags, current).1 is Some,
    ensures
        step_back(tags, step_forward(tags, current).0) == (current, Some(tags[current as int])),
{
}

/// After opening a tag there is nothing to go forward to, and the opened tag is the one shown.
pub proof fn lemma_push_ends_history(tags: Seq<TagHash>, current: nat, tag: TagHash)
    requires
        tags.len() == 0 ==> current == 0,
        tags.len() > 0 ==> current < tags.len(),
    ensures
        step_forward(push_tags(tags, current, tag), (push_tags(tags, current, tag).len() - 1) as nat).1 is None,
        push_tags(tags, current, tag).last() == tag,
{
}

/// After opening a tag, going back gives the tag that was shown before.
pub proof fn lemma_push_then_back(tags: Seq<TagHash>, current: nat, tag: TagHash)
    requires
        current < tags.len(),
    ensures
        step_back(push_tags(tags, current, tag), (push_tags(tags, current, tag).len() - 1) as nat) == (
            current,
            Some(tags[current as int]),
        ),
{
}

/// Name of the first named tag that is `tag`, if any.
pub open spec fn first_tag_name(named: Seq<(TagHash, String)>, tag: TagHash) -> Option<Seq<char>>
    decreases named.len(),
{
    if named.len() == 0 {
        None
    } else if named[0].0 == tag {
        Some(named[0].1@)
    } else {
        first_tag_name(named.drop_first(), tag)
    }
}

/// The label of a tag: with its entry, an optional star (it has a 64-bit hash), its name if it
/// has one, the hash, the entry type, its class name if known, and type, subtype and class id;
/// without, the hash and a note.
pub open spec fn tag_entry_text(
    tag: TagHash,
    entry: Option<EntryInfo>,
    named: Seq<(TagHash, String)>,
    reg: ClassRegistry,
    has_hash64: bool,
    version: GameVersion,
) -> Seq<char> {
    match entry {
        None => hex_upper(tag.0 as nat, 8) + " (pkg entry not found)"@,
        Some(e) => (if has_hash64 { "\u{2605} "@ } else { seq![] }) + (match first_tag_name(named, tag) {
            Some(n) => n + seq![' '],
            None => seq![],
        }) + hex_upper(tag.0 as nat, 8) + seq![' '] + tag_type_name(type_for_version(version, e.file_type, e.file_subtype))
            + (match spec_class_lookup(reg, e.reference) {
            Some(c) => " ("@ + c.name@ + seq![')'],
            None => seq![],
        }) + " ("@ + decimal(e.file_type as nat) + seq!['+'] + decimal(e.file_subtype as nat) + ", ref "@
            + hex_upper(e.reference as nat, 8) + seq![')'],
    }
}

fn find_tag_name(named: &[(TagHash, String)], tag: TagHash) -> (r: Option<usize>)
    ensures
        match first_tag_name(named@, tag) {
            Some(n) => r matches Some(i) && i < named@.len() && named@[i as int].1@ == n,
            None => r is None,
        },
{
    let mut i: usize = 0;
    assert(named@.subrange(0, named@.len() as int) =~= named@);
    while i < named.len()
        invariant
            i <= named@.len(),
            first_tag_name(named@, tag) == first_tag_name(named@.subrange(i as int, named@.len() as int), tag),
        decreases named@.len() - i,
    {
        let ghost rest = named@.subrange(i as int, named@.len() as int);
        if named[i].0 == tag {
            return Some(i);
        }
        assert(rest.drop_first() =~= named@.subrange(i + 1, named@.len() as int));
        i += 1;
    }
    None
}

/// The label of a tag (see `tag_entry_text`).
pub fn format_tag_entry(
    tag: TagHash,
    entry: Option<EntryInfo>,
    named_tags: &[(TagHash, String)],
    reg: &ClassRegistry,
    has_hash64: bool,
    version: GameVersion,
) -> (r: String)
    ensures
        r@ == tag_entry_text(tag, entry, named_tags@, *reg, has_hash64, version),
{
    let mut s = String::new();
    match entry {
        None => {
            push_hex_upper(&mut s, tag.0 as u64, 8);
            push_str(&mut s, " (pkg entry not found)");
        },
        Some(e) => {
            if has_hash64 {
                push_str(&mut s, "\u{2605} ");
            }
            match find_tag_name(named_tags, tag) {
                Some(i) => {
                    push_str(&mut s, named_tags[i].1.as_str());
                    push_char(&mut s, ' ');
                },
                None => {},
            }
            push_hex_upper(&mut s, tag.0 as u64, 8);
            push_char(&mut s, ' ');
            let t = TagType::from_type_subtype_for_version(version, e.file_type, e.file_subtype);
            let name = t.to_string();
            push_str(&mut s, name.as_str());
            match reg.get_class_by_id(e.reference) {
                Some(c) => {
                    push_str(&mut s, " (");
                    push_str(&mut s, c.name.as_str());
                    push_char(&mut s, ')');
                },
                None => {},
            }
            push_str(&mut s, " (");
            push_decimal(&mut s, e.file_type as u64);
            push_char(&mut s, '+');
            push_decimal(&mut s, e.file_subtype as u64);
            push_str(&mut s, ", ref ");
            push_hex_upper(&mut s, e.reference as u64, 8);
            push_char(&mut s, ')');
        },
    }
    assert(s@ =~= tag_entry_text(tag, entry, named_tags@, *reg, has_hash64, version));
    s
}

} // verus!
