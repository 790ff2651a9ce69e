//! Verified core of a tag inspection tool for Tiger-engine package files:
//! hashing, byte decoding, tag classification, texture format tables,
//! texture (de)swizzling and tag data scanning.
pub mod bytes;
pub mod audio_events;
pub mod cache;
pub mod classes;
pub mod classtables;
pub mod early_strings;
pub mod filters;
pub mod formats;
pub mod rawstrings;
pub mod scanner;
pub mod schema;
pub mod hash;
pub mod headers;
pub mod hexview;
pub mod history;
pub mod keysort;
pub mod lists;
pub mod localized;
pub mod signatures;
pub mod sorted;
pub mod strutil;
pub mod swizzle;
pub mod tagdata;
pub mod tagsearch;
pub mod tagtypes;
pub mod taghash;
pub mod texdata;
pub mod text;
pub mod textparse;
pub mod traversal;
pub mod version;
pub mod views;
pub mod wordlist;
pub mod xg;
