//! The "Network" entry of the settings navigator.

use vstd::prelude::*;
use crate::categories::Category;
use crate::permissions::PrivilegeLevel;
use crate::settings::schema::{strs_view, Schema, SettingSpec, SpecView};
use crate::settings::value::{Value, ValueKind, ValueView};

verus! {

/// The "Network" entry of the settings navigator.
#[derive(Clone, Copy)]
pub struct NetworkCategory;

/// The settings the "Network" category registers, in registration order.
pub open spec fn network_settings() -> Seq<SpecView> {
    seq![
        SpecView::new("network.ethernet_enabled"@, "network"@, "Ethernet"@, "Enable the wired network connection"@, ValueKind::Bool, ValueView::Bool(true), PrivilegeLevel::User),
        SpecView::new("network.wifi_enabled"@, "network"@, "Wi-Fi"@, "Enable the wireless radio"@, ValueKind::Bool, ValueView::Bool(true), PrivilegeLevel::User),
        SpecView::new("network.vpn_active_profile"@, "network"@, "VPN"@, "Name of the active VPN profile, empty for none"@, ValueKind::Str, ValueView::Str(Seq::empty()), PrivilegeLevel::User),
        SpecView::new("network.proxy_mode"@, "network"@, "Proxy"@, "How outgoing connections are proxied"@, ValueKind::Str, ValueView::Str("none"@), PrivilegeLevel::Admin)
            .with_choices(seq!["none"@, "manual"@, "automatic"@]),
        SpecView::new("network.dns_servers"@, "network"@, "DNS"@, "Comma-separated list of DNS server addresses (empty = use DHCP)"@, ValueKind::StrList, ValueView::StrList(Seq::empty()), PrivilegeLevel::Admin),
        SpecView::new("network.firewall_enabled"@, "network"@, "Firewall"@, "Block unsolicited incoming connections"@, ValueKind::Bool, ValueView::Bool(true), PrivilegeLevel::Admin),
    ]
}

impl Category for NetworkCategory {
    open spec fn spec_id(&self) -> Seq<char> {
        "network"@
    }

    open spec fn spec_name(&self) -> Seq<char> {
        "Network"@
    }

    open spec fn spec_icon(&self) -> Seq<char> {
        "network-wired"@
    }

    open spec fn spec_subitems(&self) -> Seq<Seq<char>> {
        seq!["Ethernet"@, "Wi-Fi"@, "VPN"@, "Proxy"@, "DNS"@, "Firewall"@]
    }

    open spec fn spec_settings(&self) -> Seq<SpecView> {
        network_settings()
    }

    open spec fn spec_live_info(&self) -> Seq<(Seq<char>, Seq<char>)> {
        Seq::empty()
    }

    fn id(&self) -> (r: &'static str) {
        "network"
    }

    fn name(&self) -> (r: &'static str) {
        "Network"
    }

    fn icon(&self) -> (r: &'static str) {
        "network-wired"
    }

    fn subitems(&self) -> (r: &'static [&'static str]) {
        let r: &'static [&'static str] = &["Ethernet", "Wi-Fi", "VPN", "Proxy", "DNS", "Firewall"];
        proof {
            assert(strs_view(r@) =~= self.spec_subitems());
        }
        r
    }

    fn register(&self, schema: &mut Schema) {
        let spec = SettingSpec::new(
            "network.ethernet_enabled",
            "network",
            "Ethernet",
            "Enable the wired network connection",
            ValueKind::Bool,
            Value::Bool(true),
            PrivilegeLevel::User,
        );
        assert(spec@ == network_settings()[0]);
        schema.register(spec);
        let spec = SettingSpec::new(
            "network.wifi_enabled",
            "network",
            "Wi-Fi",
            "Enable the wireless radio",
            ValueKind::Bool,
            Value::Bool(true),
            PrivilegeLevel::User,
        );
        assert(spec@ == network_settings()[1]);
        schema.register(spec);
        let spec = SettingSpec::new(
            "network.vpn_active_profile",
            "network",
            "VPN",
            "Name of the active VPN profile, empty for none",
            ValueKind::Str,
            Value::Str(String::new()),
            PrivilegeLevel::User,
        );
        assert(spec@ == network_settings()[2]);
        schema.register(spec);
        let spec = SettingSpec::new(
            "network.proxy_mode",
            "network",
            "Proxy",
            "How outgoing connections are proxied",
            ValueKind::Str,
            Value::Str(String::from_str("none")),
            PrivilegeLevel::Admin,
        )
        .choices(&["none", "manual", "automatic"]);
        assert(spec@.choices == network_settings()[3].choices);
        assert(spec@ == network_settings()[3]);
        schema.register(spec);
        let spec = SettingSpec::new(
            "network.dns_servers",
            "network",
            "DNS",
            "Comma-separated list of DNS server addresses (empty = use DHCP)",
            ValueKind::StrList,
            Value::StrList(Vec::new()),
            PrivilegeLevel::Admin,
        );
        assert(spec@.default->StrList_0 =~= network_settings()[4].default->StrList_0);
        assert(spec@ == network_settings()[4]);
        schema.register(spec);
        let spec = SettingSpec::new(
            "network.firewall_enabled",
            "network",
            "Firewall",
            "Block unsolicited incoming connections",
            ValueKind::Bool,
            Value::Bool(true),
            PrivilegeLevel::Admin,
        );
        assert(spec@ == network_settings()[5]);
        schema.register(spec);
        proof {
            assert(schema@.specs =~= old(schema)@.specs + network_settings());
        }
    }

    fn live_info(&self) -> (r: Vec<(&'static str, String)>) {
        let rows: Vec<(&'static str, String)> = Vec::new();
        proof {
            assert(crate::categories::live_rows_view(rows@) =~= self.spec_live_info());
        }
        rows
    }
}

/// Every setting of the "Network" category belongs to it, and its default meets
/// the setting's own constraints.
pub proof fn lemma_network_defaults_valid()
    ensures
        forall|i: int|
            0 <= i < network_settings().len() ==> #[trigger] network_settings()[i].default_is_valid()
                && network_settings()[i].category == "network"@,
{
    assert(network_settings()[3].choices->0[0] == network_settings()[3].default->Str_0);
}

} // verus!
