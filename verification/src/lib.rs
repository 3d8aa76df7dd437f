//! Verified core of a story-mod loader for a live-service rhythm game.
//!
//! The library covers the pieces of the tool whose behaviour is worth pinning
//! down precisely:
//!
//! * an AES-128-CBC cipher adapter with region-keyed key material, used for
//!   the encrypted asset-bundle-info manifest ([`cipher`]);
//! * the lightweight obfuscation codec applied to raw asset-bundle
//!   containers ([`bundle`]);
//! * the character / costume lookup tables and motion resolution rules
//!   ([`tables`], [`resolver`]);
//! * the scenario compiler that turns an ordered scene list into the game's
//!   nested scenario record ([`scenario`], [`compiler`]);
//! * the cache-invalidation protocol that rewrites manifest entries so the
//!   game client re-downloads replaced assets ([`manifest`]);
//! * the merge rule for the injection map ([`injections`]), and the mod
//!   declaration shape that drives it ([`mods`]).
//!
//! File and network I/O, the HTTP front end, and the external typetree
//! engine stay outside the library; callers hand in plain values and get
//! plain values back.

pub mod bundle;
pub mod cipher;
pub mod compiler;
pub mod injections;
pub mod manifest;
pub mod mods;
pub mod resolver;
pub mod scenario;
pub mod strutil;
pub mod tables;
