//! Glass & translucency settings, laid out like every other category so the
//! schema-driven GUI can render their sliders. Not yet one of the
//! navigator's entries: `categories::all` leaves it out.

use vstd::prelude::*;
use crate::categories::Category;
use crate::permissions::PrivilegeLevel;
use crate::settings::schema::{strs_view, Schema, SettingSpec, SpecView};
use crate::settings::value::{Value, ValueKind, ValueView};

verus! {

/// The "Glass & Effects" category (not yet in the navigator).
#[derive(Clone, Copy)]
pub struct GlassCategory;

/// The settings the "Glass & Effects" category registers, in registration order.
pub open spec fn glass_settings() -> Seq<SpecView> {
    seq![
        SpecView::new("glass.enabled"@, "glass"@, "Liquid glass"@, "Frosted translucency across the shell and all GTK4 apps"@, ValueKind::Bool, ValueView::Bool(true), PrivilegeLevel::User),
        SpecView::new("glass.blur"@, "glass"@, "Blur strength"@, "How strongly backgrounds behind translucent surfaces are frosted (0-100)"@, ValueKind::Int, ValueView::Int(60), PrivilegeLevel::User),
        SpecView::new("glass.opacity"@, "glass"@, "Surface opacity"@, "How solid translucent surfaces feel (0-100, higher = more opaque)"@, ValueKind::Int, ValueView::Int(55), PrivilegeLevel::User),
        SpecView::new("glass.tint"@, "glass"@, "Frost tint"@, "Accent colour mixed into the frost (#RRGGBB)"@, ValueKind::Str, ValueView::Str("#4C8DFF"@), PrivilegeLevel::User),
    ]
}

impl Category for GlassCategory {
    open spec fn spec_id(&self) -> Seq<char> {
        "glass"@
    }

    open spec fn spec_name(&self) -> Seq<char> {
        "Glass & Effects"@
    }

    open spec fn spec_icon(&self) -> Seq<char> {
        "preferences-desktop-appearance"@
    }

    open spec fn spec_subitems(&self) -> Seq<Seq<char>> {
        seq!["Frost"@, "Transparency"@, "Tint"@]
    }

    open spec fn spec_settings(&self) -> Seq<SpecView> {
        glass_settings()
    }

    open spec fn spec_live_info(&self) -> Seq<(Seq<char>, Seq<char>)> {
        Seq::empty()
    }

    fn id(&self) -> (r: &'static str) {
        "glass"
    }

    fn name(&self) -> (r: &'static str) {
        "Glass & Effects"
    }

    fn icon(&self) -> (r: &'static str) {
        "preferences-desktop-appearance"
    }

    fn subitems(&self) -> (r: &'static [&'static str]) {
        let r: &'static [&'static str] = &["Frost", "Transparency", "Tint"];
        proof {
            assert(strs_view(r@) =~= self.spec_subitems());
        }
        r
    }

    fn register(&self, schema: &mut Schema) {
        let spec = SettingSpec::new(
            "glass.enabled",
            "glass",
            "Liquid glass",
            "Frosted translucency across the shell and all GTK4 apps",
            ValueKind::Bool,
            Value::Bool(true),
            PrivilegeLevel::User,
        );
        assert(spec@ == glass_settings()[0]);
        schema.register(spec);
        let spec = SettingSpec::new(
            "glass.blur",
            "glass",
            "Blur strength",
            "How strongly backgrounds behind translucent surfaces are frosted (0-100)",
            ValueKind::Int,
            Value::Int(60),
            PrivilegeLevel::User,
        );
        assert(spec@ == glass_settings()[1]);
        schema.register(spec);
        let spec = SettingSpec::new(
            "glass.opacity",
            "glass",
            "Surface opacity",
            "How solid translucent surfaces feel (0-100, higher = more opaque)",
            ValueKind::Int,
            Value::Int(55),
            PrivilegeLevel::User,
        );
        assert(spec@ == glass_settings()[2]);
        schema.register(spec);
        let spec = SettingSpec::new(
            "glass.tint",
            "glass",
            "Frost tint",
            "Accent colour mixed into the frost (#RRGGBB)",
            ValueKind::Str,
            Value::Str(String::from_str("#4C8DFF")),
            PrivilegeLevel::User,
        );
        assert(spec@ == glass_settings()[3]);
        schema.register(spec);
        proof {
            assert(schema@.specs =~= old(schema)@.specs + glass_settings());
        }
    }

    fn live_info(&self) -> (r: Vec<(&'static str, String)>) {
        let rows: Vec<(&'static str, String)> = Vec::new();
        proof {
            assert(crate::categories::live_rows_view(rows@) =~= self.spec_live_info());
        }
        rows
    }
}

/// Every setting of the "Glass & Effects" category belongs to it, and its default meets
/// the setting's own constraints.
pub proof fn lemma_glass_defaults_valid()
    ensures
        forall|i: int|
            0 <= i < glass_settings().len() ==> #[trigger] glass_settings()[i].default_is_valid()
                && glass_settings()[i].category == "glass"@,
{
}

} // verus!
