//! The "About MITOS" entry of the settings navigator.

use vstd::prelude::*;
use crate::categories::Category;
use crate::settings::schema::{strs_view, Schema, SpecView};

verus! {

/// The "About MITOS" entry of the settings navigator.
#[derive(Clone, Copy)]
pub struct AboutCategory;

/// The settings the "About MITOS" category registers, in registration order.
pub open spec fn about_settings() -> Seq<SpecView> {
    seq![]
}

impl Category for AboutCategory {
    open spec fn spec_id(&self) -> Seq<char> {
        "about"@
    }

    open spec fn spec_name(&self) -> Seq<char> {
        "About MITOS"@
    }

    open spec fn spec_icon(&self) -> Seq<char> {
        "help-about"@
    }

    open spec fn spec_subitems(&self) -> Seq<Seq<char>> {
        seq!["Version"@, "Kernel"@, "Hardware"@, "License"@, "System information"@]
    }

    open spec fn spec_settings(&self) -> Seq<SpecView> {
        about_settings()
    }

    open spec fn spec_live_info(&self) -> Seq<(Seq<char>, Seq<char>)> {
        Seq::empty()
    }

    fn id(&self) -> (r: &'static str) {
        "about"
    }

    fn name(&self) -> (r: &'static str) {
        "About MITOS"
    }

    fn icon(&self) -> (r: &'static str) {
        "help-about"
    }

    fn subitems(&self) -> (r: &'static [&'static str]) {
        let r: &'static [&'static str] = &["Version", "Kernel", "Hardware", "License", "System information"];
        proof {
            assert(strs_view(r@) =~= self.spec_subitems());
        }
        r
    }

    fn register(&self, schema: &mut Schema) {
        proof {
            assert(schema@.specs =~= old(schema)@.specs + about_settings());
        }
    }

    fn live_info(&self) -> (r: Vec<(&'static str, String)>) {
        let rows: Vec<(&'static str, String)> = Vec::new();
        proof {
            assert(crate::categories::live_rows_view(rows@) =~= self.spec_live_info());
        }
        rows
    }
}

/// Every setting of the "About MITOS" category belongs to it, and its default meets
/// the setting's own constraints.
pub proof fn lemma_about_defaults_valid()
    ensures
        forall|i: int|
            0 <= i < about_settings().len() ==> #[trigger] about_settings()[i].default_is_valid()
                && about_settings()[i].category == "about"@,
{
}

} // verus!
