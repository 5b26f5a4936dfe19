//! The "Printers" entry of the settings navigator.

use vstd::prelude::*;
use crate::categories::Category;
use crate::permissions::PrivilegeLevel;
use crate::settings::schema::{strs_view, Schema, SettingSpec, SpecView};
use crate::settings::value::{Value, ValueKind, ValueView};

verus! {

/// The "Printers" entry of the settings navigator.
#[derive(Clone, Copy)]
pub struct PrintersCategory;

/// The settings the "Printers" category registers, in registration order.
pub open spec fn printers_settings() -> Seq<SpecView> {
    seq![
        SpecView::new("printers.default_printer"@, "printers"@, "Default printer"@, "CUPS queue name used when no printer is explicitly chosen"@, ValueKind::Str, ValueView::Str(Seq::empty()), PrivilegeLevel::User),
        SpecView::new("printers.default_paper_size"@, "printers"@, "Default paper size"@, "Paper size used unless a document specifies otherwise"@, ValueKind::Str, ValueView::Str("A4"@), PrivilegeLevel::User)
            .with_choices(seq!["A4"@, "Letter"@, "Legal"@, "A3"@]),
        SpecView::new("printers.print_quality"@, "printers"@, "Print quality"@, "Default print quality/speed tradeoff"@, ValueKind::Str, ValueView::Str("normal"@), PrivilegeLevel::User)
            .with_choices(seq!["draft"@, "normal"@, "high"@]),
    ]
}

impl Category for PrintersCategory {
    open spec fn spec_id(&self) -> Seq<char> {
        "printers"@
    }

    open spec fn spec_name(&self) -> Seq<char> {
        "Printers"@
    }

    open spec fn spec_icon(&self) -> Seq<char> {
        "printer"@
    }

    open spec fn spec_subitems(&self) -> Seq<Seq<char>> {
        seq!["Printers"@, "Default printer"@, "Printing options"@]
    }

    open spec fn spec_settings(&self) -> Seq<SpecView> {
        printers_settings()
    }

    open spec fn spec_live_info(&self) -> Seq<(Seq<char>, Seq<char>)> {
        Seq::empty()
    }

    fn id(&self) -> (r: &'static str) {
        "printers"
    }

    fn name(&self) -> (r: &'static str) {
        "Printers"
    }

    fn icon(&self) -> (r: &'static str) {
        "printer"
    }

    fn subitems(&self) -> (r: &'static [&'static str]) {
        let r: &'static [&'static str] = &["Printers", "Default printer", "Printing options"];
        proof {
            assert(strs_view(r@) =~= self.spec_subitems());
        }
        r
    }

    fn register(&self, schema: &mut Schema) {
        let spec = SettingSpec::new(
            "printers.default_printer",
            "printers",
            "Default printer",
            "CUPS queue name used when no printer is explicitly chosen",
            ValueKind::Str,
            Value::Str(String::new()),
            PrivilegeLevel::User,
        );
        assert(spec@ == printers_settings()[0]);
        schema.register(spec);
        let spec = SettingSpec::new(
            "printers.default_paper_size",
            "printers",
            "Default paper size",
            "Paper size used unless a document specifies otherwise",
            ValueKind::Str,
            Value::Str(String::from_str("A4")),
            PrivilegeLevel::User,
        )
        .choices(&["A4", "Letter", "Legal", "A3"]);
        assert(spec@.choices == printers_settings()[1].choices);
        assert(spec@ == printers_settings()[1]);
        schema.register(spec);
        let spec = SettingSpec::new(
            "printers.print_quality",
            "printers",
            "Print quality",
            "Default print quality/speed tradeoff",
            ValueKind::Str,
            Value::Str(String::from_str("normal")),
            PrivilegeLevel::User,
        )
        .choices(&["draft", "normal", "high"]);
        assert(spec@.choices == printers_settings()[2].choices);
        assert(spec@ == printers_settings()[2]);
        schema.register(spec);
        proof {
            assert(schema@.specs =~= old(schema)@.specs + printers_settings());
        }
    }

    fn live_info(&self) -> (r: Vec<(&'static str, String)>) {
        let rows: Vec<(&'static str, String)> = Vec::new();
        proof {
            assert(crate::categories::live_rows_view(rows@) =~= self.spec_live_info());
        }
        rows
    }
}

/// Every setting of the "Printers" category belongs to it, and its default meets
/// the setting's own constraints.
pub proof fn lemma_printers_defaults_valid()
    ensures
        forall|i: int|
            0 <= i < printers_settings().len() ==> #[trigger] printers_settings()[i].default_is_valid()
                && printers_settings()[i].category == "printers"@,
{
    assert(printers_settings()[1].choices->0[0] == printers_settings()[1].default->Str_0);
    assert(printers_settings()[2].choices->0[1] == printers_settings()[2].default->Str_0);
}

} // verus!
