use vstd::prelude::*;
use crate::strutil::{hex_upper, push_hex_upper};

verus! {

/// A 32-bit reference to a package entry: package id in bits 13.., entry index in bits 0..13,
/// offset by 0x80800000.
#[derive(Clone, Copy, Debug, PartialEq, Eq, Structural, PartialOrd, Ord, Hash)]
pub struct TagHash(pub u32);

/// A 64-bit tag reference, resolved to a `TagHash` through the package lookup table.
#[derive(Clone, Copy, Debug, PartialEq, Eq, Structural, PartialOrd, Ord, Hash)]
pub struct TagHash64(pub u64);

/// Value of a tag hash built from a package id and an entry index.
/// The sum never exceeds `u32::MAX`, so the wrapping additions of the package crate never wrap.
pub open spec fn spec_tag_new(pkg_id: u16, entry: u16) -> u32 {
    (0x80800000 + pkg_id as nat * 8192 + entry as nat % 8192) as u32
}

pub open spec fn spec_is_valid(v: u32) -> bool {
    v > 0x80800000 && v <= 0x81ffffff
}

pub open spec fn spec_is_none(v: u32) -> bool {
    v == u32::MAX
}

pub open spec fn spec_is_some(v: u32) -> bool {
    !spec_is_none(v) && spec_is_valid(v)
}

/// Package id: `(v - 0x80800000) mod 2^32`, shifted right by 13, truncated to 16 bits.
pub open spec fn spec_pkg_id(v: u32) -> u16 {
    ((((v as int - 0x80800000) % 0x1_0000_0000) / 8192) % 0x1_0000) as u16
}

pub open spec fn spec_entry_index(v: u32) -> u16 {
    (v % 8192) as u16
}

pub open spec fn spec_is_pkg_file(v: u32) -> bool {
    spec_is_some(v) && 0x9 <= spec_pkg_id(v) < 0xa00
}

/// Calls `tiger_pkg::TagHash::new`, which computes
/// `0x80800000 + (pkg_id << 13) + entry % 8192` with wrapping additions; for 16-bit inputs the
/// sum stays below 2^32.
#[verifier::external_body]
fn pkg_tag_new(pkg_id: u16, entry: u16) -> (r: u32)
    ensures
        r == spec_tag_new(pkg_id, entry),
{
    tiger_pkg::TagHash::new(pkg_id, entry).0
}

/// Calls `tiger_pkg::TagHash::is_valid`: the value lies in `(0x80800000, 0x81ffffff]`.
#[verifier::external_body]
fn pkg_tag_is_valid(v: u32) -> (r: bool)
    ensures
        r == spec_is_valid(v),
{
    tiger_pkg::TagHash(v).is_valid()
}

/// Calls `tiger_pkg::TagHash::is_none`: the value is `u32::MAX`.
#[verifier::external_body]
fn pkg_tag_is_none(v: u32) -> (r: bool)
    ensures
        r == spec_is_none(v),
{
    tiger_pkg::TagHash(v).is_none()
}

/// Calls `tiger_pkg::TagHash::is_some`: not none and valid.
#[verifier::external_body]
fn pkg_tag_is_some(v: u32) -> (r: bool)
    ensures
        r == spec_is_some(v),
{
    tiger_pkg::TagHash(v).is_some()
}

/// Calls `tiger_pkg::TagHash::pkg_id`: `(v.wrapping_sub(0x80800000) >> 13) as u16`.
#[verifier::external_body]
fn pkg_tag_pkg_id(v: u32) -> (r: u16)
    ensures
        r == spec_pkg_id(v),
{
    tiger_pkg::TagHash(v).pkg_id()
}

/// Calls `tiger_pkg::TagHash::entry_index`: `((v & 0x1fff) % 8192) as u16`, the low 13 bits.
#[verifier::external_body]
fn pkg_tag_entry_index(v: u32) -> (r: u16)
    ensures
        r == spec_entry_index(v),
{
    tiger_pkg::TagHash(v).entry_index()
}

/// Calls `tiger_pkg::TagHash::is_pkg_file`: some, with a package id in `0x9..0xa00`.
#[verifier::external_body]
fn pkg_tag_is_pkg_file(v: u32) -> (r: bool)
    ensures
        r == spec_is_pkg_file(v),
{
    tiger_pkg::TagHash(v).is_pkg_file()
}

impl TagHash {
    /// The tag written as eight upper-case hexadecimal digits.
    pub fn to_string(&self) -> (r: String)
        ensures
            r@ == hex_upper(self.0 as nat, 8),
    {
        let mut s = String::new();
        push_hex_upper(&mut s, self.0 as u64, 8);
        assert(s@ =~= hex_upper(self.0 as nat, 8));
        s
    }

    /// The "no tag" value.
    pub fn none() -> (r: TagHash)
        ensures
            r.0 == u32::MAX,
    {
        TagHash(u32::MAX)
    }

    pub fn new(pkg_id: u16, entry: u16) -> (r: TagHash)
        ensures
            r.0 == spec_tag_new(pkg_id, entry),
    {
        TagHash(pkg_tag_new(pkg_id, entry))
    }

    pub fn is_valid(&self) -> (r: bool)
        ensures
            r == spec_is_valid(self.0),
    {
        pkg_tag_is_valid(self.0)
    }

    pub fn is_none(&self) -> (r: bool)
        ensures
            r == spec_is_none(self.0),
    {
        pkg_tag_is_none(self.0)
    }

    pub fn is_some(&self) -> (r: bool)
        ensures
            r == spec_is_some(self.0),
    {
        pkg_tag_is_some(self.0)
    }

    pub fn pkg_id(&self) -> (r: u16)
        ensures
            r == spec_pkg_id(self.0),
    {
        pkg_tag_pkg_id(self.0)
    }

    pub fn entry_index(&self) -> (r: u16)
        ensures
            r == spec_entry_index(self.0),
    {
        pkg_tag_entry_index(self.0)
    }

    /// Does this hash look like a reference into a package?
    pub fn is_pkg_file(&self) -> (r: bool)
        ensures
            r == spec_is_pkg_file(self.0),
    {
        pkg_tag_is_pkg_file(self.0)
    }
}

/// A tag built from a package id and entry index gives them back.
pub proof fn lemma_tag_new_roundtrip(pkg_id: u16, entry: u16)
    requires
        entry < 8192,
    ensures
        spec_pkg_id(spec_tag_new(pkg_id, entry)) == pkg_id,
        spec_entry_index(spec_tag_new(pkg_id, entry)) == entry,
{
    let v = spec_tag_new(pkg_id, entry);
    assert(v as int - 0x80800000 == pkg_id as int * 8192 + entry as int);
    assert((pkg_id as int * 8192 + entry as int) / 8192 == pkg_id as int) by (nonlinear_arith)
        requires
            0 <= entry < 8192,
    ;
    assert(v as int % 8192 == entry as int) by (nonlinear_arith)
        requires
            v as int == 0x80800000 + pkg_id as int * 8192 + entry as int,
            0 <= entry < 8192,
    ;
}

} // verus!
