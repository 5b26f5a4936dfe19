//! The "Storage" entry of the settings navigator.

use vstd::prelude::*;
use crate::categories::Category;
use crate::permissions::PrivilegeLevel;
use crate::settings::schema::{strs_view, Schema, SettingSpec, SpecView};
use crate::settings::value::{Value, ValueKind, ValueView};

verus! {

/// The "Storage" entry of the settings navigator.
#[derive(Clone, Copy)]
pub struct StorageCategory;

/// The settings the "Storage" category registers, in registration order.
pub open spec fn storage_settings() -> Seq<SpecView> {
    seq![
        SpecView::new("storage.automount_removable_media"@, "storage"@, "Auto-mount removable media"@, "Automatically mount USB drives and other removable media when connected"@, ValueKind::Bool, ValueView::Bool(true), PrivilegeLevel::User),
    ]
}

impl Category for StorageCategory {
    open spec fn spec_id(&self) -> Seq<char> {
        "storage"@
    }

    open spec fn spec_name(&self) -> Seq<char> {
        "Storage"@
    }

    open spec fn spec_icon(&self) -> Seq<char> {
        "drive-harddisk"@
    }

    open spec fn spec_subitems(&self) -> Seq<Seq<char>> {
        seq!["Disks"@, "Partitions"@, "Storage usage"@, "Mounts"@]
    }

    open spec fn spec_settings(&self) -> Seq<SpecView> {
        storage_settings()
    }

    open spec fn spec_live_info(&self) -> Seq<(Seq<char>, Seq<char>)> {
        Seq::empty()
    }

    fn id(&self) -> (r: &'static str) {
        "storage"
    }

    fn name(&self) -> (r: &'static str) {
        "Storage"
    }

    fn icon(&self) -> (r: &'static str) {
        "drive-harddisk"
    }

    fn subitems(&self) -> (r: &'static [&'static str]) {
        let r: &'static [&'static str] = &["Disks", "Partitions", "Storage usage", "Mounts"];
        proof {
            assert(strs_view(r@) =~= self.spec_subitems());
        }
        r
    }

    fn register(&self, schema: &mut Schema) {
        let spec = SettingSpec::new(
            "storage.automount_removable_media",
            "storage",
            "Auto-mount removable media",
            "Automatically mount USB drives and other removable media when connected",
            ValueKind::Bool,
            Value::Bool(true),
            PrivilegeLevel::User,
        );
        assert(spec@ == storage_settings()[0]);
        schema.register(spec);
        proof {
            assert(schema@.specs =~= old(schema)@.specs + storage_settings());
        }
    }

    fn live_info(&self) -> (r: Vec<(&'static str, String)>) {
        let rows: Vec<(&'static str, String)> = Vec::new();
        proof {
            assert(crate::categories::live_rows_view(rows@) =~= self.spec_live_info());
        }
        rows
    }
}

/// Every setting of the "Storage" category belongs to it, and its default meets
/// the setting's own constraints.
pub proof fn lemma_storage_defaults_valid()
    ensures
        forall|i: int|
            0 <= i < storage_settings().len() ==> #[trigger] storage_settings()[i].default_is_valid()
                && storage_settings()[i].category == "storage"@,
{
}

} // verus!
