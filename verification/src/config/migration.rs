//! Carries older on-disk config formats forward to `CURRENT_VERSION`. Each
//! step is small and self-contained; add a new `migrate_vN_to_vN+1`
//! function and call it from `migrate` when you next change the key layout.

use vstd::prelude::*;
use crate::config::entries::{insert_sorted, lookup, remove_key, Pair};
use crate::config::loader::{DocView, RawDocument, CURRENT_VERSION};

verus! {

/// The entries after the version 1 to 2 step: the bare `wifi.enabled` key
/// of version 1, if present, becomes `network.wifi_enabled`.
pub open spec fn v1_to_v2_entries(ps: Seq<Pair>) -> Seq<Pair> {
    match lookup(ps, "wifi.enabled"@) {
        Some(v) => insert_sorted(remove_key(ps, "wifi.enabled"@), "network.wifi_enabled"@, v),
        None => ps,
    }
}

/// The document `migrate` makes of `d`: the version 1 to 2 step applied
/// when `d` is older than version 2, and the version set to the current
/// one.
pub open spec fn migrated(d: DocView) -> DocView {
    DocView {
        version: CURRENT_VERSION,
        entries: if d.version < 2 { v1_to_v2_entries(d.entries) } else { d.entries },
    }
}

/// Brings `doc` up to the current version.
pub fn migrate(doc: RawDocument) -> (r: RawDocument)
    ensures
        r@ == migrated(doc@),
{
    let mut doc = doc;
    if doc.version < 2 {
        migrate_v1_to_v2(&mut doc);
    }
    doc.version = CURRENT_VERSION;
    doc
}

/// v1 stored Wi-Fi under the bare key `wifi.enabled`; v2 namespaces every
/// network setting under `network.*` to match the category layout used by
/// `categories::network`.
fn migrate_v1_to_v2(doc: &mut RawDocument)
    ensures
        final(doc)@.entries == v1_to_v2_entries(old(doc)@.entries),
        final(doc)@.version == old(doc)@.version,
{
    if let Some(v) = doc.entries.remove("wifi.enabled") {
        doc.entries.insert(String::from_str("network.wifi_enabled"), v);
    }
}

/// Migrating a document that is already at the current version leaves its
/// entries as they were.
pub proof fn lemma_migrate_current_unchanged(d: DocView)
    requires
        d.version == CURRENT_VERSION,
    ensures
        migrated(d) == d,
{
}

/// Migrating twice is migrating once.
pub proof fn lemma_migrate_idempotent(d: DocView)
    ensures
        migrated(migrated(d)) == migrated(d),
{
}

} // verus!
