//! Each file in this module is one entry in the Settings navigator. A
//! `Category` registers its `SettingSpec`s into the `Schema` (so they are
//! persistable and validated generically) and may expose `live_info`, the
//! read-only rows it reports beside its settings. Rows that must be read
//! from the machine (disk usage, paired Bluetooth devices, kernel version,
//! ...) are decided in `live` from the plain values the program around this
//! library reads.

use vstd::prelude::*;
use crate::settings::schema::{strs_view, CategoryMeta, CategoryMetaView, Schema, SpecView};
use crate::categories::appearance::AppearanceCategory;
use crate::categories::theme::ThemeCategory;
use crate::categories::wallpaper::WallpaperCategory;
use crate::categories::display::DisplayCategory;
use crate::categories::sound::SoundCategory;
use crate::categories::network::NetworkCategory;
use crate::categories::bluetooth::BluetoothCategory;
use crate::categories::keyboard::KeyboardCategory;
use crate::categories::mouse::MouseCategory;
use crate::categories::touchpad::TouchpadCategory;
use crate::categories::power::PowerCategory;
use crate::categories::battery::BatteryCategory;
use crate::categories::users::UsersCategory;
use crate::categories::privacy::PrivacyCategory;
use crate::categories::security::SecurityCategory;
use crate::categories::applications::ApplicationsCategory;
use crate::categories::notifications::NotificationsCategory;
use crate::categories::accessibility::AccessibilityCategory;
use crate::categories::date_time::DateTimeCategory;
use crate::categories::language::LanguageCategory;
use crate::categories::region::RegionCategory;
use crate::categories::storage::StorageCategory;
use crate::categories::printers::PrintersCategory;
use crate::categories::sharing::SharingCategory;
use crate::categories::updates::UpdatesCategory;
use crate::categories::developer::DeveloperCategory;
use crate::categories::about::AboutCategory;

pub mod about;
pub mod accessibility;
pub mod appearance;
pub mod applications;
pub mod battery;
pub mod bluetooth;
pub mod date_time;
pub mod developer;
pub mod display;
pub mod glass;
pub mod keyboard;
pub mod language;
pub mod live;
pub mod mouse;
pub mod network;
pub mod notifications;
pub mod power;
pub mod printers;
pub mod privacy;
pub mod region;
pub mod security;
pub mod sharing;
pub mod sound;
pub mod storage;
pub mod theme;
pub mod touchpad;
pub mod touchscreen;
pub mod updates;
pub mod users;
pub mod wallpaper;

verus! {

/// The characters of each (label, value) row.
pub open spec fn live_rows_view(rows: Seq<(&'static str, String)>) -> Seq<(Seq<char>, Seq<char>)> {
    rows.map_values(|r: (&'static str, String)| (r.0@, r.1@))
}

/// Something that shows up as a top-level entry in the Settings navigator.
pub trait Category {
    spec fn spec_id(&self) -> Seq<char>;

    spec fn spec_name(&self) -> Seq<char>;

    spec fn spec_icon(&self) -> Seq<char>;

    spec fn spec_subitems(&self) -> Seq<Seq<char>>;

    /// The settings `register` adds, in order.
    spec fn spec_settings(&self) -> Seq<SpecView>;

    /// The rows `live_info` reports.
    spec fn spec_live_info(&self) -> Seq<(Seq<char>, Seq<char>)>;

    fn id(&self) -> (r: &'static str)
        ensures
            r@ == self.spec_id(),
    ;

    fn name(&self) -> (r: &'static str)
        ensures
            r@ == self.spec_name(),
    ;

    fn icon(&self) -> (r: &'static str)
        ensures
            r@ == self.spec_icon(),
    ;

    fn subitems(&self) -> (r: &'static [&'static str])
        ensures
            strs_view(r@) == self.spec_subitems(),
    ;

    /// Appends this category's settings to `schema`, after whatever it
    /// already holds.
    fn register(&self, schema: &mut Schema)
        ensures
            final(schema)@.specs == old(schema)@.specs + self.spec_settings(),
            final(schema)@.categories == old(schema)@.categories,
    ;

    /// Read-only (label, value) rows that need nothing read from the
    /// machine. Most categories have none.
    fn live_info(&self) -> (r: Vec<(&'static str, String)>)
        ensures
            live_rows_view(r@) == self.spec_live_info(),
    ;
}

/// Any one of the navigator's categories.
#[derive(Clone, Copy)]
pub enum AnyCategory {
    Appearance(AppearanceCategory),
    Theme(ThemeCategory),
    Wallpaper(WallpaperCategory),
    Display(DisplayCategory),
    Sound(SoundCategory),
    Network(NetworkCategory),
    Bluetooth(BluetoothCategory),
    Keyboard(KeyboardCategory),
    Mouse(MouseCategory),
    Touchpad(TouchpadCategory),
    Power(PowerCategory),
    Battery(BatteryCategory),
    Users(UsersCategory),
    Privacy(PrivacyCategory),
    Security(SecurityCategory),
    Applications(ApplicationsCategory),
    Notifications(NotificationsCategory),
    Accessibility(AccessibilityCategory),
    DateTime(DateTimeCategory),
    Language(LanguageCategory),
    Region(RegionCategory),
    Storage(StorageCategory),
    Printers(PrintersCategory),
    Sharing(SharingCategory),
    Updates(UpdatesCategory),
    Developer(DeveloperCategory),
    About(AboutCategory),
}

impl Category for AnyCategory {
    open spec fn spec_id(&self) -> Seq<char> {
        match self {
            AnyCategory::Appearance(c) => c.spec_id(),
            AnyCategory::Theme(c) => c.spec_id(),
            AnyCategory::Wallpaper(c) => c.spec_id(),
            AnyCategory::Display(c) => c.spec_id(),
            AnyCategory::Sound(c) => c.spec_id(),
            AnyCategory::Network(c) => c.spec_id(),
            AnyCategory::Bluetooth(c) => c.spec_id(),
            AnyCategory::Keyboard(c) => c.spec_id(),
            AnyCategory::Mouse(c) => c.spec_id(),
            AnyCategory::Touchpad(c) => c.spec_id(),
            AnyCategory::Power(c) => c.spec_id(),
            AnyCategory::Battery(c) => c.spec_id(),
            AnyCategory::Users(c) => c.spec_id(),
            AnyCategory::Privacy(c) => c.spec_id(),
            AnyCategory::Security(c) => c.spec_id(),
            AnyCategory::Applications(c) => c.spec_id(),
            AnyCategory::Notifications(c) => c.spec_id(),
            AnyCategory::Accessibility(c) => c.spec_id(),
            AnyCategory::DateTime(c) => c.spec_id(),
            AnyCategory::Language(c) => c.spec_id(),
            AnyCategory::Region(c) => c.spec_id(),
            AnyCategory::Storage(c) => c.spec_id(),
            AnyCategory::Printers(c) => c.spec_id(),
            AnyCategory::Sharing(c) => c.spec_id(),
            AnyCategory::Updates(c) => c.spec_id(),
            AnyCategory::Developer(c) => c.spec_id(),
            AnyCategory::About(c) => c.spec_id(),
        }
    }

    open spec fn spec_name(&self) -> Seq<char> {
        match self {
            AnyCategory::Appearance(c) => c.spec_name(),
            AnyCategory::Theme(c) => c.spec_name(),
            AnyCategory::Wallpaper(c) => c.spec_name(),
            AnyCategory::Display(c) => c.spec_name(),
            AnyCategory::Sound(c) => c.spec_name(),
            AnyCategory::Network(c) => c.spec_name(),
            AnyCategory::Bluetooth(c) => c.spec_name(),
            AnyCategory::Keyboard(c) => c.spec_name(),
            AnyCategory::Mouse(c) => c.spec_name(),
            AnyCategory::Touchpad(c) => c.spec_name(),
            AnyCategory::Power(c) => c.spec_name(),
            AnyCategory::Battery(c) => c.spec_name(),
            AnyCategory::Users(c) => c.spec_name(),
            AnyCategory::Privacy(c) => c.spec_name(),
            AnyCategory::Security(c) => c.spec_name(),
            AnyCategory::Applications(c) => c.spec_name(),
            AnyCategory::Notifications(c) => c.spec_name(),
            AnyCategory::Accessibility(c) => c.spec_name(),
            AnyCategory::DateTime(c) => c.spec_name(),
            AnyCategory::Language(c) => c.spec_name(),
            AnyCategory::Region(c) => c.spec_name(),
            AnyCategory::Storage(c) => c.spec_name(),
            AnyCategory::Printers(c) => c.spec_name(),
            AnyCategory::Sharing(c) => c.spec_name(),
            AnyCategory::Updates(c) => c.spec_name(),
            AnyCategory::Developer(c) => c.spec_name(),
            AnyCategory::About(c) => c.spec_name(),
        }
    }

    open spec fn spec_icon(&self) -> Seq<char> {
        match self {
            AnyCategory::Appearance(c) => c.spec_icon(),
            AnyCategory::Theme(c) => c.spec_icon(),
            AnyCategory::Wallpaper(c) => c.spec_icon(),
            AnyCategory::Display(c) => c.spec_icon(),
            AnyCategory::Sound(c) => c.spec_icon(),
            AnyCategory::Network(c) => c.spec_icon(),
            AnyCategory::Bluetooth(c) => c.spec_icon(),
            AnyCategory::Keyboard(c) => c.spec_icon(),
            AnyCategory::Mouse(c) => c.spec_icon(),
            AnyCategory::Touchpad(c) => c.spec_icon(),
            AnyCategory::Power(c) => c.spec_icon(),
            AnyCategory::Battery(c) => c.spec_icon(),
            AnyCategory::Users(c) => c.spec_icon(),
            AnyCategory::Privacy(c) => c.spec_icon(),
            AnyCategory::Security(c) => c.spec_icon(),
            AnyCategory::Applications(c) => c.spec_icon(),
            AnyCategory::Notifications(c) => c.spec_icon(),
            AnyCategory::Accessibility(c) => c.spec_icon(),
            AnyCategory::DateTime(c) => c.spec_icon(),
            AnyCategory::Language(c) => c.spec_icon(),
            AnyCategory::Region(c) => c.spec_icon(),
            AnyCategory::Storage(c) => c.spec_icon(),
            AnyCategory::Printers(c) => c.spec_icon(),
            AnyCategory::Sharing(c) => c.spec_icon(),
            AnyCategory::Updates(c) => c.spec_icon(),
            AnyCategory::Developer(c) => c.spec_icon(),
            AnyCategory::About(c) => c.spec_icon(),
        }
    }

    open spec fn spec_subitems(&self) -> Seq<Seq<char>> {
        match self {
            AnyCategory::Appearance(c) => c.spec_subitems(),
            AnyCategory::Theme(c) => c.spec_subitems(),
            AnyCategory::Wallpaper(c) => c.spec_subitems(),
            AnyCategory::Display(c) => c.spec_subitems(),
            AnyCategory::Sound(c) => c.spec_subitems(),
            AnyCategory::Network(c) => c.spec_subitems(),
            AnyCategory::Bluetooth(c) => c.spec_subitems(),
            AnyCategory::Keyboard(c) => c.spec_subitems(),
            AnyCategory::Mouse(c) => c.spec_subitems(),
            AnyCategory::Touchpad(c) => c.spec_subitems(),
            AnyCategory::Power(c) => c.spec_subitems(),
            AnyCategory::Battery(c) => c.spec_subitems(),
            AnyCategory::Users(c) => c.spec_subitems(),
            AnyCategory::Privacy(c) => c.spec_subitems(),
            AnyCategory::Security(c) => c.spec_subitems(),
            AnyCategory::Applications(c) => c.spec_subitems(),
            AnyCategory::Notifications(c) => c.spec_subitems(),
            AnyCategory::Accessibility(c) => c.spec_subitems(),
            AnyCategory::DateTime(c) => c.spec_subitems(),
            AnyCategory::Language(c) => c.spec_subitems(),
            AnyCategory::Region(c) => c.spec_subitems(),
            AnyCategory::Storage(c) => c.spec_subitems(),
            AnyCategory::Printers(c) => c.spec_subitems(),
            AnyCategory::Sharing(c) => c.spec_subitems(),
            AnyCategory::Updates(c) => c.spec_subitems(),
            AnyCategory::Developer(c) => c.spec_subitems(),
            AnyCategory::About(c) => c.spec_subitems(),
        }
    }

    open spec fn spec_settings(&self) -> Seq<SpecView> {
        match self {
            AnyCategory::Appearance(c) => c.spec_settings(),
            AnyCategory::Theme(c) => c.spec_settings(),
            AnyCategory::Wallpaper(c) => c.spec_settings(),
            AnyCategory::Display(c) => c.spec_settings(),
            AnyCategory::Sound(c) => c.spec_settings(),
            AnyCategory::Network(c) => c.spec_settings(),
            AnyCategory::Bluetooth(c) => c.spec_settings(),
            AnyCategory::Keyboard(c) => c.spec_settings(),
            AnyCategory::Mouse(c) => c.spec_settings(),
            AnyCategory::Touchpad(c) => c.spec_settings(),
            AnyCategory::Power(c) => c.spec_settings(),
            AnyCategory::Battery(c) => c.spec_settings(),
            AnyCategory::Users(c) => c.spec_settings(),
            AnyCategory::Privacy(c) => c.spec_settings(),
            AnyCategory::Security(c) => c.spec_settings(),
            AnyCategory::Applications(c) => c.spec_settings(),
            AnyCategory::Notifications(c) => c.spec_settings(),
            AnyCategory::Accessibility(c) => c.spec_settings(),
            AnyCategory::DateTime(c) => c.spec_settings(),
            AnyCategory::Language(c) => c.spec_settings(),
            AnyCategory::Region(c) => c.spec_settings(),
            AnyCategory::Storage(c) => c.spec_settings(),
            AnyCategory::Printers(c) => c.spec_settings(),
            AnyCategory::Sharing(c) => c.spec_settings(),
            AnyCategory::Updates(c) => c.spec_settings(),
            AnyCategory::Developer(c) => c.spec_settings(),
            AnyCategory::About(c) => c.spec_settings(),
        }
    }

    open spec fn spec_live_info(&self) -> Seq<(Seq<char>, Seq<char>)> {
        match self {
            AnyCategory::Appearance(c) => c.spec_live_info(),
            AnyCategory::Theme(c) => c.spec_live_info(),
            AnyCategory::Wallpaper(c) => c.spec_live_info(),
            AnyCategory::Display(c) => c.spec_live_info(),
            AnyCategory::Sound(c) => c.spec_live_info(),
            AnyCategory::Network(c) => c.spec_live_info(),
            AnyCategory::Bluetooth(c) => c.spec_live_info(),
            AnyCategory::Keyboard(c) => c.spec_live_info(),
            AnyCategory::Mouse(c) => c.spec_live_info(),
            AnyCategory::Touchpad(c) => c.spec_live_info(),
            AnyCategory::Power(c) => c.spec_live_info(),
            AnyCategory::Battery(c) => c.spec_live_info(),
            AnyCategory::Users(c) => c.spec_live_info(),
            AnyCategory::Privacy(c) => c.spec_live_info(),
            AnyCategory::Security(c) => c.spec_live_info(),
            AnyCategory::Applications(c) => c.spec_live_info(),
            AnyCategory::Notifications(c) => c.spec_live_info(),
            AnyCategory::Accessibility(c) => c.spec_live_info(),
            AnyCategory::DateTime(c) => c.spec_live_info(),
            AnyCategory::Language(c) => c.spec_live_info(),
            AnyCategory::Region(c) => c.spec_live_info(),
            AnyCategory::Storage(c) => c.spec_live_info(),
            AnyCategory::Printers(c) => c.spec_live_info(),
            AnyCategory::Sharing(c) => c.spec_live_info(),
            AnyCategory::Updates(c) => c.spec_live_info(),
            AnyCategory::Developer(c) => c.spec_live_info(),
            AnyCategory::About(c) => c.spec_live_info(),
        }
    }

    fn id(&self) -> (r: &'static str) {
        match self {
            AnyCategory::Appearance(c) => c.id(),
            AnyCategory::Theme(c) => c.id(),
            AnyCategory::Wallpaper(c) => c.id(),
            AnyCategory::Display(c) => c.id(),
            AnyCategory::Sound(c) => c.id(),
            AnyCategory::Network(c) => c.id(),
            AnyCategory::Bluetooth(c) => c.id(),
            AnyCategory::Keyboard(c) => c.id(),
            AnyCategory::Mouse(c) => c.id(),
            AnyCategory::Touchpad(c) => c.id(),
            AnyCategory::Power(c) => c.id(),
            AnyCategory::Battery(c) => c.id(),
            AnyCategory::Users(c) => c.id(),
            AnyCategory::Privacy(c) => c.id(),
            AnyCategory::Security(c) => c.id(),
            AnyCategory::Applications(c) => c.id(),
            AnyCategory::Notifications(c) => c.id(),
            AnyCategory::Accessibility(c) => c.id(),
            AnyCategory::DateTime(c) => c.id(),
            AnyCategory::Language(c) => c.id(),
            AnyCategory::Region(c) => c.id(),
            AnyCategory::Storage(c) => c.id(),
            AnyCategory::Printers(c) => c.id(),
            AnyCategory::Sharing(c) => c.id(),
            AnyCategory::Updates(c) => c.id(),
            AnyCategory::Developer(c) => c.id(),
            AnyCategory::About(c) => c.id(),
        }
    }

    fn name(&self) -> (r: &'static str) {
        match self {
            AnyCategory::Appearance(c) => c.name(),
            AnyCategory::Theme(c) => c.name(),
            AnyCategory::Wallpaper(c) => c.name(),
            AnyCategory::Display(c) => c.name(),
            AnyCategory::Sound(c) => c.name(),
            AnyCategory::Network(c) => c.name(),
            AnyCategory::Bluetooth(c) => c.name(),
            AnyCategory::Keyboard(c) => c.name(),
            AnyCategory::Mouse(c) => c.name(),
            AnyCategory::Touchpad(c) => c.name(),
            AnyCategory::Power(c) => c.name(),
            AnyCategory::Battery(c) => c.name(),
            AnyCategory::Users(c) => c.name(),
            AnyCategory::Privacy(c) => c.name(),
            AnyCategory::Security(c) => c.name(),
            AnyCategory::Applications(c) => c.name(),
            AnyCategory::Notifications(c) => c.name(),
            AnyCategory::Accessibility(c) => c.name(),
            AnyCategory::DateTime(c) => c.name(),
            AnyCategory::Language(c) => c.name(),
            AnyCategory::Region(c) => c.name(),
            AnyCategory::Storage(c) => c.name(),
            AnyCategory::Printers(c) => c.name(),
            AnyCategory::Sharing(c) => c.name(),
            AnyCategory::Updates(c) => c.name(),
            AnyCategory::Developer(c) => c.name(),
            AnyCategory::About(c) => c.name(),
        }
    }

    fn icon(&self) -> (r: &'static str) {
        match self {
            AnyCategory::Appearance(c) => c.icon(),
            AnyCategory::Theme(c) => c.icon(),
            AnyCategory::Wallpaper(c) => c.icon(),
            AnyCategory::Display(c) => c.icon(),
            AnyCategory::Sound(c) => c.icon(),
            AnyCategory::Network(c) => c.icon(),
            AnyCategory::Bluetooth(c) => c.icon(),
            AnyCategory::Keyboard(c) => c.icon(),
            AnyCategory::Mouse(c) => c.icon(),
            AnyCategory::Touchpad(c) => c.icon(),
            AnyCategory::Power(c) => c.icon(),
            AnyCategory::Battery(c) => c.icon(),
            AnyCategory::Users(c) => c.icon(),
            AnyCategory::Privacy(c) => c.icon(),
            AnyCategory::Security(c) => c.icon(),
            AnyCategory::Applications(c) => c.icon(),
            AnyCategory::Notifications(c) => c.icon(),
            AnyCategory::Accessibility(c) => c.icon(),
            AnyCategory::DateTime(c) => c.icon(),
            AnyCategory::Language(c) => c.icon(),
            AnyCategory::Region(c) => c.icon(),
            AnyCategory::Storage(c) => c.icon(),
            AnyCategory::Printers(c) => c.icon(),
            AnyCategory::Sharing(c) => c.icon(),
            AnyCategory::Updates(c) => c.icon(),
            AnyCategory::Developer(c) => c.icon(),
            AnyCategory::About(c) => c.icon(),
        }
    }

    fn subitems(&self) -> (r: &'static [&'static str]) {
        match self {
            AnyCategory::Appearance(c) => c.subitems(),
            AnyCategory::Theme(c) => c.subitems(),
            AnyCategory::Wallpaper(c) => c.subitems(),
            AnyCategory::Display(c) => c.subitems(),
            AnyCategory::Sound(c) => c.subitems(),
            AnyCategory::Network(c) => c.subitems(),
            AnyCategory::Bluetooth(c) => c.subitems(),
            AnyCategory::Keyboard(c) => c.subitems(),
            AnyCategory::Mouse(c) => c.subitems(),
            AnyCategory::Touchpad(c) => c.subitems(),
            AnyCategory::Power(c) => c.subitems(),
            AnyCategory::Battery(c) => c.subitems(),
            AnyCategory::Users(c) => c.subitems(),
            AnyCategory::Privacy(c) => c.subitems(),
            AnyCategory::Security(c) => c.subitems(),
            AnyCategory::Applications(c) => c.subitems(),
            AnyCategory::Notifications(c) => c.subitems(),
            AnyCategory::Accessibility(c) => c.subitems(),
            AnyCategory::DateTime(c) => c.subitems(),
            AnyCategory::Language(c) => c.subitems(),
            AnyCategory::Region(c) => c.subitems(),
            AnyCategory::Storage(c) => c.subitems(),
            AnyCategory::Printers(c) => c.subitems(),
            AnyCategory::Sharing(c) => c.subitems(),
            AnyCategory::Updates(c) => c.subitems(),
            AnyCategory::Developer(c) => c.subitems(),
            AnyCategory::About(c) => c.subitems(),
        }
    }

    fn register(&self, schema: &mut Schema) {
        match self {
            AnyCategory::Appearance(c) => c.register(schema),
            AnyCategory::Theme(c) => c.register(schema),
            AnyCategory::Wallpaper(c) => c.register(schema),
            AnyCategory::Display(c) => c.register(schema),
            AnyCategory::Sound(c) => c.register(schema),
            AnyCategory::Network(c) => c.register(schema),
            AnyCategory::Bluetooth(c) => c.register(schema),
            AnyCategory::Keyboard(c) => c.register(schema),
            AnyCategory::Mouse(c) => c.register(schema),
            AnyCategory::Touchpad(c) => c.register(schema),
            AnyCategory::Power(c) => c.register(schema),
            AnyCategory::Battery(c) => c.register(schema),
            AnyCategory::Users(c) => c.register(schema),
            AnyCategory::Privacy(c) => c.register(schema),
            AnyCategory::Security(c) => c.register(schema),
            AnyCategory::Applications(c) => c.register(schema),
            AnyCategory::Notifications(c) => c.register(schema),
            AnyCategory::Accessibility(c) => c.register(schema),
            AnyCategory::DateTime(c) => c.register(schema),
            AnyCategory::Language(c) => c.register(schema),
            AnyCategory::Region(c) => c.register(schema),
            AnyCategory::Storage(c) => c.register(schema),
            AnyCategory::Printers(c) => c.register(schema),
            AnyCategory::Sharing(c) => c.register(schema),
            AnyCategory::Updates(c) => c.register(schema),
            AnyCategory::Developer(c) => c.register(schema),
            AnyCategory::About(c) => c.register(schema),
        }
    }

    fn live_info(&self) -> (r: Vec<(&'static str, String)>) {
        match self {
            AnyCategory::Appearance(c) => c.live_info(),
            AnyCategory::Theme(c) => c.live_info(),
            AnyCategory::Wallpaper(c) => c.live_info(),
            AnyCategory::Display(c) => c.live_info(),
            AnyCategory::Sound(c) => c.live_info(),
            AnyCategory::Network(c) => c.live_info(),
            AnyCategory::Bluetooth(c) => c.live_info(),
            AnyCategory::Keyboard(c) => c.live_info(),
            AnyCategory::Mouse(c) => c.live_info(),
            AnyCategory::Touchpad(c) => c.live_info(),
            AnyCategory::Power(c) => c.live_info(),
            AnyCategory::Battery(c) => c.live_info(),
            AnyCategory::Users(c) => c.live_info(),
            AnyCategory::Privacy(c) => c.live_info(),
            AnyCategory::Security(c) => c.live_info(),
            AnyCategory::Applications(c) => c.live_info(),
            AnyCategory::Notifications(c) => c.live_info(),
            AnyCategory::Accessibility(c) => c.live_info(),
            AnyCategory::DateTime(c) => c.live_info(),
            AnyCategory::Language(c) => c.live_info(),
            AnyCategory::Region(c) => c.live_info(),
            AnyCategory::Storage(c) => c.live_info(),
            AnyCategory::Printers(c) => c.live_info(),
            AnyCategory::Sharing(c) => c.live_info(),
            AnyCategory::Updates(c) => c.live_info(),
            AnyCategory::Developer(c) => c.live_info(),
            AnyCategory::About(c) => c.live_info(),
        }
    }
}

/// Every category, in navigator order.
pub open spec fn navigator() -> Seq<AnyCategory> {
    seq![
        AnyCategory::Appearance(AppearanceCategory),
        AnyCategory::Theme(ThemeCategory),
        AnyCategory::Wallpaper(WallpaperCategory),
        AnyCategory::Display(DisplayCategory),
        AnyCategory::Sound(SoundCategory),
        AnyCategory::Network(NetworkCategory),
        AnyCategory::Bluetooth(BluetoothCategory),
        AnyCategory::Keyboard(KeyboardCategory),
        AnyCategory::Mouse(MouseCategory),
        AnyCategory::Touchpad(TouchpadCategory),
        AnyCategory::Power(PowerCategory),
        AnyCategory::Battery(BatteryCategory),
        AnyCategory::Users(UsersCategory),
        AnyCategory::Privacy(PrivacyCategory),
        AnyCategory::Security(SecurityCategory),
        AnyCategory::Applications(ApplicationsCategory),
        AnyCategory::Notifications(NotificationsCategory),
        AnyCategory::Accessibility(AccessibilityCategory),
        AnyCategory::DateTime(DateTimeCategory),
        AnyCategory::Language(LanguageCategory),
        AnyCategory::Region(RegionCategory),
        AnyCategory::Storage(StorageCategory),
        AnyCategory::Printers(PrintersCategory),
        AnyCategory::Sharing(SharingCategory),
        AnyCategory::Updates(UpdatesCategory),
        AnyCategory::Developer(DeveloperCategory),
        AnyCategory::About(AboutCategory),
    ]
}

/// How a category is listed in the schema.
pub open spec fn meta_of(c: AnyCategory) -> CategoryMetaView {
    CategoryMetaView {
        id: c.spec_id(),
        name: c.spec_name(),
        icon: c.spec_icon(),
        subitems: c.spec_subitems(),
    }
}

/// The settings of `cats`, category after category.
pub open spec fn settings_of(cats: Seq<AnyCategory>) -> Seq<SpecView>
    decreases cats.len(),
{
    if cats.len() == 0 {
        Seq::empty()
    } else {
        settings_of(cats.drop_last()) + cats.last().spec_settings()
    }
}

/// The first of `cats` whose id is `id`.
pub open spec fn find_in(cats: Seq<AnyCategory>, id: Seq<char>) -> Option<AnyCategory>
    decreases cats.len(),
{
    if cats.len() == 0 {
        None
    } else if cats[0].spec_id() == id {
        Some(cats[0])
    } else {
        find_in(cats.drop_first(), id)
    }
}

/// Every category, in navigator order.
pub fn all() -> (v: Vec<AnyCategory>)
    ensures
        v@ == navigator(),
{
    let mut v: Vec<AnyCategory> = Vec::new();
    v.push(AnyCategory::Appearance(AppearanceCategory));
    v.push(AnyCategory::Theme(ThemeCategory));
    v.push(AnyCategory::Wallpaper(WallpaperCategory));
    v.push(AnyCategory::Display(DisplayCategory));
    v.push(AnyCategory::Sound(SoundCategory));
    v.push(AnyCategory::Network(NetworkCategory));
    v.push(AnyCategory::Bluetooth(BluetoothCategory));
    v.push(AnyCategory::Keyboard(KeyboardCategory));
    v.push(AnyCategory::Mouse(MouseCategory));
    v.push(AnyCategory::Touchpad(TouchpadCategory));
    v.push(AnyCategory::Power(PowerCategory));
    v.push(AnyCategory::Battery(BatteryCategory));
    v.push(AnyCategory::Users(UsersCategory));
    v.push(AnyCategory::Privacy(PrivacyCategory));
    v.push(AnyCategory::Security(SecurityCategory));
    v.push(AnyCategory::Applications(ApplicationsCategory));
    v.push(AnyCategory::Notifications(NotificationsCategory));
    v.push(AnyCategory::Accessibility(AccessibilityCategory));
    v.push(AnyCategory::DateTime(DateTimeCategory));
    v.push(AnyCategory::Language(LanguageCategory));
    v.push(AnyCategory::Region(RegionCategory));
    v.push(AnyCategory::Storage(StorageCategory));
    v.push(AnyCategory::Printers(PrintersCategory));
    v.push(AnyCategory::Sharing(SharingCategory));
    v.push(AnyCategory::Updates(UpdatesCategory));
    v.push(AnyCategory::Developer(DeveloperCategory));
    v.push(AnyCategory::About(AboutCategory));
    assert(v@ =~= navigator());
    v
}

/// Registers every category, in navigator order, then its settings, after
/// whatever `schema` already holds.
pub fn register_all(schema: &mut Schema)
    ensures
        final(schema)@.categories == old(schema)@.categories + navigator().map_values(|c: AnyCategory| meta_of(c)),
        final(schema)@.specs == old(schema)@.specs + settings_of(navigator()),
{
    let categories = all();
    let mut i: usize = 0;
    while i < categories.len()
        invariant
            categories@ == navigator(),
            i <= categories@.len(),
            schema@.categories == old(schema)@.categories + navigator().take(i as int).map_values(|c: AnyCategory| meta_of(c)),
            schema@.specs == old(schema)@.specs + settings_of(navigator().take(i as int)),
        decreases categories.len() - i,
    {
        let category = categories[i];
        let meta = CategoryMeta {
            id: category.id(),
            name: category.name(),
            icon: category.icon(),
            subitems: category.subitems(),
        };
        assert(meta@ == meta_of(category));
        schema.register_category(meta);
        category.register(schema);
        proof {
            let taken = navigator().take(i + 1);
            assert(taken.drop_last() =~= navigator().take(i as int));
            assert(taken.last() == category);
            assert(taken.map_values(|c: AnyCategory| meta_of(c)) =~= navigator().take(i as int).map_values(|c: AnyCategory| meta_of(c)).push(meta_of(category)));
            assert(schema@.categories =~= old(schema)@.categories + taken.map_values(|c: AnyCategory| meta_of(c)));
            assert(schema@.specs =~= old(schema)@.specs + settings_of(taken));
        }
        i += 1;
    }
    assert(navigator().take(categories@.len() as int) =~= navigator());
}

/// The navigator category whose id is `id`, if there is one.
pub fn find(id: &str) -> (r: Option<AnyCategory>)
    ensures
        r == find_in(navigator(), id@),
{
    let categories = all();
    let mut i: usize = 0;
    assert(navigator().skip(0) =~= navigator());
    while i < categories.len()
        invariant
            categories@ == navigator(),
            i <= categories@.len(),
            find_in(navigator(), id@) == find_in(navigator().skip(i as int), id@),
        decreases categories.len() - i,
    {
        let category = categories[i];
        assert(navigator().skip(i as int)[0] == category);
        if crate::text::str_eq(category.id(), id) {
            return Some(category);
        }
        assert(navigator().skip(i as int).drop_first() =~= navigator().skip(i + 1));
        i += 1;
    }
    None
}

/// Position in the navigator of the category whose id is `id` (-1 for an
/// id that names none).
pub open spec fn navigator_position(id: Seq<char>) -> int {
    if id == "appearance"@ {
        0
    } else if id == "theme"@ {
        1
    } else if id == "wallpaper"@ {
        2
    } else if id == "display"@ {
        3
    } else if id == "sound"@ {
        4
    } else if id == "network"@ {
        5
    } else if id == "bluetooth"@ {
        6
    } else if id == "keyboard"@ {
        7
    } else if id == "mouse"@ {
        8
    } else if id == "touchpad"@ {
        9
    } else if id == "power"@ {
        10
    } else if id == "battery"@ {
        11
    } else if id == "users"@ {
        12
    } else if id == "privacy"@ {
        13
    } else if id == "security"@ {
        14
    } else if id == "applications"@ {
        15
    } else if id == "notifications"@ {
        16
    } else if id == "accessibility"@ {
        17
    } else if id == "date_time"@ {
        18
    } else if id == "language"@ {
        19
    } else if id == "region"@ {
        20
    } else if id == "storage"@ {
        21
    } else if id == "printers"@ {
        22
    } else if id == "sharing"@ {
        23
    } else if id == "updates"@ {
        24
    } else if id == "developer"@ {
        25
    } else if id == "about"@ {
        26
    } else {
        -1
    }
}

/// No two navigator categories share an id.
pub proof fn lemma_navigator_ids_distinct()
    ensures
        forall|i: int, j: int|
            0 <= i < j < navigator().len() ==> #[trigger] navigator()[i].spec_id() != #[trigger] navigator()[j].spec_id(),
{
    reveal_strlit("appearance");
    reveal_strlit("theme");
    reveal_strlit("wallpaper");
    reveal_strlit("display");
    reveal_strlit("sound");
    reveal_strlit("network");
    reveal_strlit("bluetooth");
    reveal_strlit("keyboard");
    reveal_strlit("mouse");
    reveal_strlit("touchpad");
    reveal_strlit("power");
    reveal_strlit("battery");
    reveal_strlit("users");
    reveal_strlit("privacy");
    reveal_strlit("security");
    reveal_strlit("applications");
    reveal_strlit("notifications");
    reveal_strlit("accessibility");
    reveal_strlit("date_time");
    reveal_strlit("language");
    reveal_strlit("region");
    reveal_strlit("storage");
    reveal_strlit("printers");
    reveal_strlit("sharing");
    reveal_strlit("updates");
    reveal_strlit("developer");
    reveal_strlit("about");
    assert("appearance"@ != "theme"@) by {
        assert("appearance"@.len() != "theme"@.len());
    }
    assert("appearance"@ != "wallpaper"@) by {
        assert("appearance"@.len() != "wallpaper"@.len());
    }
    assert("appearance"@ != "display"@) by {
        assert("appearance"@.len() != "display"@.len());
    }
    assert("appearance"@ != "sound"@) by {
        assert("appearance"@.len() != "sound"@.len());
    }
    assert("appearance"@ != "network"@) by {
        assert("appearance"@.len() != "network"@.len());
    }
    assert("appearance"@ != "bluetooth"@) by {
        assert("appearance"@.len() != "bluetooth"@.len());
    }
    assert("appearance"@ != "keyboard"@) by {
        assert("appearance"@.len() != "keyboard"@.len());
    }
    assert("appearance"@ != "mouse"@) by {
        assert("appearance"@.len() != "mouse"@.len());
    }
    assert("appearance"@ != "touchpad"@) by {
        assert("appearance"@.len() != "touchpad"@.len());
    }
    assert("appearance"@ != "power"@) by {
        assert("appearance"@.len() != "power"@.len());
    }
    assert("appearance"@ != "battery"@) by {
        assert("appearance"@.len() != "battery"@.len());
    }
    assert("appearance"@ != "users"@) by {
        assert("appearance"@.len() != "users"@.len());
    }
    assert("appearance"@ != "privacy"@) by {
        assert("appearance"@.len() != "privacy"@.len());
    }
    assert("appearance"@ != "security"@) by {
        assert("appearance"@.len() != "security"@.len());
    }
    assert("appearance"@ != "applications"@) by {
        assert("appearance"@.len() != "applications"@.len());
    }
    assert("appearance"@ != "notifications"@) by {
        assert("appearance"@.len() != "notifications"@.len());
    }
    assert("appearance"@ != "accessibility"@) by {
        assert("appearance"@.len() != "accessibility"@.len());
    }
    assert("appearance"@ != "date_time"@) by {
        assert("appearance"@.len() != "date_time"@.len());
    }
    assert("appearance"@ != "language"@) by {
        assert("appearance"@.len() != "language"@.len());
    }
    assert("appearance"@ != "region"@) by {
        assert("appearance"@.len() != "region"@.len());
    }
    assert("appearance"@ != "storage"@) by {
        assert("appearance"@.len() != "storage"@.len());
    }
    assert("appearance"@ != "printers"@) by {
        assert("appearance"@.len() != "printers"@.len());
    }
    assert("appearance"@ != "sharing"@) by {
        assert("appearance"@.len() != "sharing"@.len());
    }
    assert("appearance"@ != "updates"@) by {
        assert("appearance"@.len() != "updates"@.len());
    }
    assert("appearance"@ != "developer"@) by {
        assert("appearance"@.len() != "developer"@.len());
    }
    assert("appearance"@ != "about"@) by {
        assert("appearance"@.len() != "about"@.len());
    }
    assert("theme"@ != "wallpaper"@) by {
        assert("theme"@.len() != "wallpaper"@.len());
    }
    assert("theme"@ != "display"@) by {
        assert("theme"@.len() != "display"@.len());
    }
    assert("theme"@ != "sound"@) by {
        assert("theme"@[0] != "sound"@[0]);
    }
    assert("theme"@ != "network"@) by {
        assert("theme"@.len() != "network"@.len());
    }
    assert("theme"@ != "bluetooth"@) by {
        assert("theme"@.len() != "bluetooth"@.len());
    }
    assert("theme"@ != "keyboard"@) by {
        assert("theme"@.len() != "keyboard"@.len());
    }
    assert("theme"@ != "mouse"@) by {
        assert("theme"@[0] != "mouse"@[0]);
    }
    assert("theme"@ != "touchpad"@) by {
        assert("theme"@.len() != "touchpad"@.len());
    }
    assert("theme"@ != "power"@) by {
        assert("theme"@[0] != "power"@[0]);
    }
    assert("theme"@ != "battery"@) by {
        assert("theme"@.len() != "battery"@.len());
    }
    assert("theme"@ != "users"@) by {
        assert("theme"@[0] != "users"@[0]);
    }
    assert("theme"@ != "privacy"@) by {
        assert("theme"@.len() != "privacy"@.len());
    }
    assert("theme"@ != "security"@) by {
        assert("theme"@.len() != "security"@.len());
    }
    assert("theme"@ != "applications"@) by {
        assert("theme"@.len() != "applications"@.len());
    }
    assert("theme"@ != "notifications"@) by {
        assert("theme"@.len() != "notifications"@.len());
    }
    assert("theme"@ != "accessibility"@) by {
        assert("theme"@.len() != "accessibility"@.len());
    }
    assert("theme"@ != "date_time"@) by {
        assert("theme"@.len() != "date_time"@.len());
    }
    assert("theme"@ != "language"@) by {
        assert("theme"@.len() != "language"@.len());
    }
    assert("theme"@ != "region"@) by {
        assert("theme"@.len() != "region"@.len());
    }
    assert("theme"@ != "storage"@) by {
        assert("theme"@.len() != "storage"@.len());
    }
    assert("theme"@ != "printers"@) by {
        assert("theme"@.len() != "printers"@.len());
    }
    assert("theme"@ != "sharing"@) by {
        assert("theme"@.len() != "sharing"@.len());
    }
    assert("theme"@ != "updates"@) by {
        assert("theme"@.len() != "updates"@.len());
    }
    assert("theme"@ != "developer"@) by {
        assert("theme"@.len() != "developer"@.len());
    }
    assert("theme"@ != "about"@) by {
        assert("theme"@[0] != "about"@[0]);
    }
    assert("wallpaper"@ != "display"@) by {
        assert("wallpaper"@.len() != "display"@.len());
    }
    assert("wallpaper"@ != "sound"@) by {
        assert("wallpaper"@.len() != "sound"@.len());
    }
    assert("wallpaper"@ != "network"@) by {
        assert("wallpaper"@.len() != "network"@.len());
    }
    assert("wallpaper"@ != "bluetooth"@) by {
        assert("wallpaper"@[0] != "bluetooth"@[0]);
    }
    assert("wallpaper"@ != "keyboard"@) by {
        assert("wallpaper"@.len() != "keyboard"@.len());
    }
    assert("wallpaper"@ != "mouse"@) by {
        assert("wallpaper"@.len() != "mouse"@.len());
    }
    assert("wallpaper"@ != "touchpad"@) by {
        assert("wallpaper"@.len() != "touchpad"@.len());
    }
    assert("wallpaper"@ != "power"@) by {
        assert("wallpaper"@.len() != "power"@.len());
    }
    assert("wallpaper"@ != "battery"@) by {
        assert("wallpaper"@.len() != "battery"@.len());
    }
    assert("wallpaper"@ != "users"@) by {
        assert("wallpaper"@.len() != "users"@.len());
    }
    assert("wallpaper"@ != "privacy"@) by {
        assert("wallpaper"@.len() != "privacy"@.len());
    }
    assert("wallpaper"@ != "security"@) by {
        assert("wallpaper"@.len() != "security"@.len());
    }
    assert("wallpaper"@ != "applications"@) by {
        assert("wallpaper"@.len() != "applications"@.len());
    }
    assert("wallpaper"@ != "notifications"@) by {
        assert("wallpaper"@.len() != "notifications"@.len());
    }
    assert("wallpaper"@ != "accessibility"@) by {
        assert("wallpaper"@.len() != "accessibility"@.len());
    }
    assert("wallpaper"@ != "date_time"@) by {
        assert("wallpaper"@[0] != "date_time"@[0]);
    }
    assert("wallpaper"@ != "language"@) by {
        assert("wallpaper"@.len() != "language"@.len());
    }
    assert("wallpaper"@ != "region"@) by {
        assert("wallpaper"@.len() != "region"@.len());
    }
    assert("wallpaper"@ != "storage"@) by {
        assert("wallpaper"@.len() != "storage"@.len());
    }
    assert("wallpaper"@ != "printers"@) by {
        assert("wallpaper"@.len() != "printers"@.len());
    }
    assert("wallpaper"@ != "sharing"@) by {
        assert("wallpaper"@.len() != "sharing"@.len());
    }
    assert("wallpaper"@ != "updates"@) by {
        assert("wallpaper"@.len() != "updates"@.len());
    }
    assert("wallpaper"@ != "developer"@) by {
        assert("wallpaper"@[0] != "developer"@[0]);
    }
    assert("wallpaper"@ != "about"@) by {
        assert("wallpaper"@.len() != "about"@.len());
    }
    assert("display"@ != "sound"@) by {
        assert("display"@.len() != "sound"@.len());
    }
    assert("display"@ != "network"@) by {
        assert("display"@[0] != "network"@[0]);
    }
    assert("display"@ != "bluetooth"@) by {
        assert("display"@.len() != "bluetooth"@.len());
    }
    assert("display"@ != "keyboard"@) by {
        assert("display"@.len() != "keyboard"@.len());
    }
    assert("display"@ != "mouse"@) by {
        assert("display"@.len() != "mouse"@.len());
    }
    assert("display"@ != "touchpad"@) by {
        assert("display"@.len() != "touchpad"@.len());
    }
    assert("display"@ != "power"@) by {
        assert("display"@.len() != "power"@.len());
    }
    assert("display"@ != "battery"@) by {
        assert("display"@[0] != "battery"@[0]);
    }
    assert("display"@ != "users"@) by {
        assert("display"@.len() != "users"@.len());
    }
    assert("display"@ != "privacy"@) by {
        assert("display"@[0] != "privacy"@[0]);
    }
    assert("display"@ != "security"@) by {
        assert("display"@.len() != "security"@.len());
    }
    assert("display"@ != "applications"@) by {
        assert("display"@.len() != "applications"@.len());
    }
    assert("display"@ != "notifications"@) by {
        assert("display"@.len() != "notifications"@.len());
    }
    assert("display"@ != "accessibility"@) by {
        assert("display"@.len() != "accessibility"@.len());
    }
    assert("display"@ != "date_time"@) by {
        assert("display"@.len() != "date_time"@.len());
    }
    assert("display"@ != "language"@) by {
        assert("display"@.len() != "language"@.len());
    }
    assert("display"@ != "region"@) by {
        assert("display"@.len() != "region"@.len());
    }
    assert("display"@ != "storage"@) by {
        assert("display"@[0] != "storage"@[0]);
    }
    assert("display"@ != "printers"@) by {
        assert("display"@.len() != "printers"@.len());
    }
    assert("display"@ != "sharing"@) by {
        assert("display"@[0] != "sharing"@[0]);
    }
    assert("display"@ != "updates"@) by {
        assert("display"@[0] != "updates"@[0]);
    }
    assert("display"@ != "developer"@) by {
        assert("display"@.len() != "developer"@.len());
    }
    assert("display"@ != "about"@) by {
        assert("display"@.len() != "about"@.len());
    }
    assert("sound"@ != "network"@) by {
        assert("sound"@.len() != "network"@.len());
    }
    assert("sound"@ != "bluetooth"@) by {
        assert("sound"@.len() != "bluetooth"@.len());
    }
    assert("sound"@ != "keyboard"@) by {
        assert("sound"@.len() != "keyboard"@.len());
    }
    assert("sound"@ != "mouse"@) by {
        assert("sound"@[0] != "mouse"@[0]);
    }
    assert("sound"@ != "touchpad"@) by {
        assert("sound"@.len() != "touchpad"@.len());
    }
    assert("sound"@ != "power"@) by {
        assert("sound"@[0] != "power"@[0]);
    }
    assert("sound"@ != "battery"@) by {
        assert("sound"@.len() != "battery"@.len());
    }
    assert("sound"@ != "users"@) by {
        assert("sound"@[0] != "users"@[0]);
    }
    assert("sound"@ != "privacy"@) by {
        assert("sound"@.len() != "privacy"@.len());
    }
    assert("sound"@ != "security"@) by {
        assert("sound"@.len() != "security"@.len());
    }
    assert("sound"@ != "applications"@) by {
        assert("sound"@.len() != "applications"@.len());
    }
    assert("sound"@ != "notifications"@) by {
        assert("sound"@.len() != "notifications"@.len());
    }
    assert("sound"@ != "accessibility"@) by {
        assert("sound"@.len() != "accessibility"@.len());
    }
    assert("sound"@ != "date_time"@) by {
        assert("sound"@.len() != "date_time"@.len());
    }
    assert("sound"@ != "language"@) by {
        assert("sound"@.len() != "language"@.len());
    }
    assert("sound"@ != "region"@) by {
        assert("sound"@.len() != "region"@.len());
    }
    assert("sound"@ != "storage"@) by {
        assert("sound"@.len() != "storage"@.len());
    }
    assert("sound"@ != "printers"@) by {
        assert("sound"@.len() != "printers"@.len());
    }
    assert("sound"@ != "sharing"@) by {
        assert("sound"@.len() != "sharing"@.len());
    }
    assert("sound"@ != "updates"@) by {
        assert("sound"@.len() != "updates"@.len());
    }
    assert("sound"@ != "developer"@) by {
        assert("sound"@.len() != "developer"@.len());
    }
    assert("sound"@ != "about"@) by {
        assert("sound"@[0] != "about"@[0]);
    }
    assert("network"@ != "bluetooth"@) by {
        assert("network"@.len() != "bluetooth"@.len());
    }
    assert("network"@ != "keyboard"@) by {
        assert("network"@.len() != "keyboard"@.len());
    }
    assert("network"@ != "mouse"@) by {
        assert("network"@.len() != "mouse"@.len());
    }
    assert("network"@ != "touchpad"@) by {
        assert("network"@.len() != "touchpad"@.len());
    }
    assert("network"@ != "power"@) by {
        assert("network"@.len() != "power"@.len());
    }
    assert("network"@ != "battery"@) by {
        assert("network"@[0] != "battery"@[0]);
    }
    assert("network"@ != "users"@) by {
        assert("network"@.len() != "users"@.len());
    }
    assert("network"@ != "privacy"@) by {
        assert("network"@[0] != "privacy"@[0]);
    }
    assert("network"@ != "security"@) by {
        assert("network"@.len() != "security"@.len());
    }
    assert("network"@ != "applications"@) by {
        assert("network"@.len() != "applications"@.len());
    }
    assert("network"@ != "notifications"@) by {
        assert("network"@.len() != "notifications"@.len());
    }
    assert("network"@ != "accessibility"@) by {
        assert("network"@.len() != "accessibility"@.len());
    }
    assert("network"@ != "date_time"@) by {
        assert("network"@.len() != "date_time"@.len());
    }
    assert("network"@ != "language"@) by {
        assert("network"@.len() != "language"@.len());
    }
    assert("network"@ != "region"@) by {
        assert("network"@.len() != "region"@.len());
    }
    assert("network"@ != "storage"@) by {
        assert("network"@[0] != "storage"@[0]);
    }
    assert("network"@ != "printers"@) by {
        assert("network"@.len() != "printers"@.len());
    }
    assert("network"@ != "sharing"@) by {
        assert("network"@[0] != "sharing"@[0]);
    }
    assert("network"@ != "updates"@) by {
        assert("network"@[0] != "updates"@[0]);
    }
    assert("network"@ != "developer"@) by {
        assert("network"@.len() != "developer"@.len());
    }
    assert("network"@ != "about"@) by {
        assert("network"@.len() != "about"@.len());
    }
    assert("bluetooth"@ != "keyboard"@) by {
        assert("bluetooth"@.len() != "keyboard"@.len());
    }
    assert("bluetooth"@ != "mouse"@) by {
        assert("bluetooth"@.len() != "mouse"@.len());
    }
    assert("bluetooth"@ != "touchpad"@) by {
        assert("bluetooth"@.len() != "touchpad"@.len());
    }
    assert("bluetooth"@ != "power"@) by {
        assert("bluetooth"@.len() != "power"@.len());
    }
    assert("bluetooth"@ != "battery"@) by {
        assert("bluetooth"@.len() != "battery"@.len());
    }
    assert("bluetooth"@ != "users"@) by {
        assert("bluetooth"@.len() != "users"@.len());
    }
    assert("bluetooth"@ != "privacy"@) by {
        assert("bluetooth"@.len() != "privacy"@.len());
    }
    assert("bluetooth"@ != "security"@) by {
        assert("bluetooth"@.len() != "security"@.len());
    }
    assert("bluetooth"@ != "applications"@) by {
        assert("bluetooth"@.len() != "applications"@.len());
    }
    assert("bluetooth"@ != "notifications"@) by {
        assert("bluetooth"@.len() != "notifications"@.len());
    }
    assert("bluetooth"@ != "accessibility"@) by {
        assert("bluetooth"@.len() != "accessibility"@.len());
    }
    assert("bluetooth"@ != "date_time"@) by {
        assert("bluetooth"@[0] != "date_time"@[0]);
    }
    assert("bluetooth"@ != "language"@) by {
        assert("bluetooth"@.len() != "language"@.len());
    }
    assert("bluetooth"@ != "region"@) by {
        assert("bluetooth"@.len() != "region"@.len());
    }
    assert("bluetooth"@ != "storage"@) by {
        assert("bluetooth"@.len() != "storage"@.len());
    }
    assert("bluetooth"@ != "printers"@) by {
        assert("bluetooth"@.len() != "printers"@.len());
    }
    assert("bluetooth"@ != "sharing"@) by {
        assert("bluetooth"@.len() != "sharing"@.len());
    }
    assert("bluetooth"@ != "updates"@) by {
        assert("bluetooth"@.len() != "updates"@.len());
    }
    assert("bluetooth"@ != "developer"@) by {
        assert("bluetooth"@[0] != "developer"@[0]);
    }
    assert("bluetooth"@ != "about"@) by {
        assert("bluetooth"@.len() != "about"@.len());
    }
    assert("keyboard"@ != "mouse"@) by {
        assert("keyboard"@.len() != "mouse"@.len());
    }
    assert("keyboard"@ != "touchpad"@) by {
        assert("keyboard"@[0] != "touchpad"@[0]);
    }
    assert("keyboard"@ != "power"@) by {
        assert("keyboard"@.len() != "power"@.len());
    }
    assert("keyboard"@ != "battery"@) by {
        assert("keyboard"@.len() != "battery"@.len());
    }
    assert("keyboard"@ != "users"@) by {
        assert("keyboard"@.len() != "users"@.len());
    }
    assert("keyboard"@ != "privacy"@) by {
        assert("keyboard"@.len() != "privacy"@.len());
    }
    assert("keyboard"@ != "security"@) by {
        assert("keyboard"@[0] != "security"@[0]);
    }
    assert("keyboard"@ != "applications"@) by {
        assert("keyboard"@.len() != "applications"@.len());
    }
    assert("keyboard"@ != "notifications"@) by {
        assert("keyboard"@.len() != "notifications"@.len());
    }
    assert("keyboard"@ != "accessibility"@) by {
        assert("keyboard"@.len() != "accessibility"@.len());
    }
    assert("keyboard"@ != "date_time"@) by {
        assert("keyboard"@.len() != "date_time"@.len());
    }
    assert("keyboard"@ != "language"@) by {
        assert("keyboard"@[0] != "language"@[0]);
    }
    assert("keyboard"@ != "region"@) by {
        assert("keyboard"@.len() != "region"@.len());
    }
    assert("keyboard"@ != "storage"@) by {
        assert("keyboard"@.len() != "storage"@.len());
    }
    assert("keyboard"@ != "printers"@) by {
        assert("keyboard"@[0] != "printers"@[0]);
    }
    assert("keyboard"@ != "sharing"@) by {
        assert("keyboard"@.len() != "sharing"@.len());
    }
    assert("keyboard"@ != "updates"@) by {
        assert("keyboard"@.len() != "updates"@.len());
    }
    assert("keyboard"@ != "developer"@) by {
        assert("keyboard"@.len() != "developer"@.len());
    }
    assert("keyboard"@ != "about"@) by {
        assert("keyboard"@.len() != "about"@.len());
    }
    assert("mouse"@ != "touchpad"@) by {
        assert("mouse"@.len() != "touchpad"@.len());
    }
    assert("mouse"@ != "power"@) by {
        assert("mouse"@[0] != "power"@[0]);
    }
    assert("mouse"@ != "battery"@) by {
        assert("mouse"@.len() != "battery"@.len());
    }
    assert("mouse"@ != "users"@) by {
        assert("mouse"@[0] != "users"@[0]);
    }
    assert("mouse"@ != "privacy"@) by {
        assert("mouse"@.len() != "privacy"@.len());
    }
    assert("mouse"@ != "security"@) by {
        assert("mouse"@.len() != "security"@.len());
    }
    assert("mouse"@ != "applications"@) by {
        assert("mouse"@.len() != "applications"@.len());
    }
    assert("mouse"@ != "notifications"@) by {
        assert("mouse"@.len() != "notifications"@.len());
    }
    assert("mouse"@ != "accessibility"@) by {
        assert("mouse"@.len() != "accessibility"@.len());
    }
    assert("mouse"@ != "date_time"@) by {
        assert("mouse"@.len() != "date_time"@.len());
    }
    assert("mouse"@ != "language"@) by {
        assert("mouse"@.len() != "language"@.len());
    }
    assert("mouse"@ != "region"@) by {
        assert("mouse"@.len() != "region"@.len());
    }
    assert("mouse"@ != "storage"@) by {
        assert("mouse"@.len() != "storage"@.len());
    }
    assert("mouse"@ != "printers"@) by {
        assert("mouse"@.len() != "printers"@.len());
    }
    assert("mouse"@ != "sharing"@) by {
        assert("mouse"@.len() != "sharing"@.len());
    }
    assert("mouse"@ != "updates"@) by {
        assert("mouse"@.len() != "updates"@.len());
    }
    assert("mouse"@ != "developer"@) by {
        assert("mouse"@.len() != "developer"@.len());
    }
    assert("mouse"@ != "about"@) by {
        assert("mouse"@[0] != "about"@[0]);
    }
    assert("touchpad"@ != "power"@) by {
        assert("touchpad"@.len() != "power"@.len());
    }
    assert("touchpad"@ != "battery"@) by {
        assert("touchpad"@.len() != "battery"@.len());
    }
    assert("touchpad"@ != "users"@) by {
        assert("touchpad"@.len() != "users"@.len());
    }
    assert("touchpad"@ != "privacy"@) by {
        assert("touchpad"@.len() != "privacy"@.len());
    }
    assert("touchpad"@ != "security"@) by {
        assert("touchpad"@[0] != "security"@[0]);
    }
    assert("touchpad"@ != "applications"@) by {
        assert("touchpad"@.len() != "applications"@.len());
    }
    assert("touchpad"@ != "notifications"@) by {
        assert("touchpad"@.len() != "notifications"@.len());
    }
    assert("touchpad"@ != "accessibility"@) by {
        assert("touchpad"@.len() != "accessibility"@.len());
    }
    assert("touchpad"@ != "date_time"@) by {
        assert("touchpad"@.len() != "date_time"@.len());
    }
    assert("touchpad"@ != "language"@) by {
        assert("touchpad"@[0] != "language"@[0]);
    }
    assert("touchpad"@ != "region"@) by {
        assert("touchpad"@.len() != "region"@.len());
    }
    assert("touchpad"@ != "storage"@) by {
        assert("touchpad"@.len() != "storage"@.len());
    }
    assert("touchpad"@ != "printers"@) by {
        assert("touchpad"@[0] != "printers"@[0]);
    }
    assert("touchpad"@ != "sharing"@) by {
        assert("touchpad"@.len() != "sharing"@.len());
    }
    assert("touchpad"@ != "updates"@) by {
        assert("touchpad"@.len() != "updates"@.len());
    }
    assert("touchpad"@ != "developer"@) by {
        assert("touchpad"@.len() != "developer"@.len());
    }
    assert("touchpad"@ != "about"@) by {
        assert("touchpad"@.len() != "about"@.len());
    }
    assert("power"@ != "battery"@) by {
        assert("power"@.len() != "battery"@.len());
    }
    assert("power"@ != "users"@) by {
        assert("power"@[0] != "users"@[0]);
    }
    assert("power"@ != "privacy"@) by {
        assert("power"@.len() != "privacy"@.len());
    }
    assert("power"@ != "security"@) by {
        assert("power"@.len() != "security"@.len());
    }
    assert("power"@ != "applications"@) by {
        assert("power"@.len() != "applications"@.len());
    }
    assert("power"@ != "notifications"@) by {
        assert("power"@.len() != "notifications"@.len());
    }
    assert("power"@ != "accessibility"@) by {
        assert("power"@.len() != "accessibility"@.len());
    }
    assert("power"@ != "date_time"@) by {
        assert("power"@.len() != "date_time"@.len());
    }
    assert("power"@ != "language"@) by {
        assert("power"@.len() != "language"@.len());
    }
    assert("power"@ != "region"@) by {
        assert("power"@.len() != "region"@.len());
    }
    assert("power"@ != "storage"@) by {
        assert("power"@.len() != "storage"@.len());
    }
    assert("power"@ != "printers"@) by {
        assert("power"@.len() != "printers"@.len());
    }
    assert("power"@ != "sharing"@) by {
        assert("power"@.len() != "sharing"@.len());
    }
    assert("power"@ != "updates"@) by {
        assert("power"@.len() != "updates"@.len());
    }
    assert("power"@ != "developer"@) by {
        assert("power"@.len() != "developer"@.len());
    }
    assert("power"@ != "about"@) by {
        assert("power"@[0] != "about"@[0]);
    }
    assert("battery"@ != "users"@) by {
        assert("battery"@.len() != "users"@.len());
    }
    assert("battery"@ != "privacy"@) by {
        assert("battery"@[0] != "privacy"@[0]);
    }
    assert("battery"@ != "security"@) by {
        assert("battery"@.len() != "security"@.len());
    }
    assert("battery"@ != "applications"@) by {
        assert("battery"@.len() != "applications"@.len());
    }
    assert("battery"@ != "notifications"@) by {
        assert("battery"@.len() != "notifications"@.len());
    }
    assert("battery"@ != "accessibility"@) by {
        assert("battery"@.len() != "accessibility"@.len());
    }
    assert("battery"@ != "date_time"@) by {
        assert("battery"@.len() != "date_time"@.len());
    }
    assert("battery"@ != "language"@) by {
        assert("battery"@.len() != "language"@.len());
    }
    assert("battery"@ != "region"@) by {
        assert("battery"@.len() != "region"@.len());
    }
    assert("battery"@ != "storage"@) by {
        assert("battery"@[0] != "storage"@[0]);
    }
    assert("battery"@ != "printers"@) by {
        assert("battery"@.len() != "printers"@.len());
    }
    assert("battery"@ != "sharing"@) by {
        assert("battery"@[0] != "sharing"@[0]);
    }
    assert("battery"@ != "updates"@) by {
        assert("battery"@[0] != "updates"@[0]);
    }
    assert("battery"@ != "developer"@) by {
        assert("battery"@.len() != "developer"@.len());
    }
    assert("battery"@ != "about"@) by {
        assert("battery"@.len() != "about"@.len());
    }
    assert("users"@ != "privacy"@) by {
        assert("users"@.len() != "privacy"@.len());
    }
    assert("users"@ != "security"@) by {
        assert("users"@.len() != "security"@.len());
    }
    assert("users"@ != "applications"@) by {
        assert("users"@.len() != "applications"@.len());
    }
    assert("users"@ != "notifications"@) by {
        assert("users"@.len() != "notifications"@.len());
    }
    assert("users"@ != "accessibility"@) by {
        assert("users"@.len() != "accessibility"@.len());
    }
    assert("users"@ != "date_time"@) by {
        assert("users"@.len() != "date_time"@.len());
    }
    assert("users"@ != "language"@) by {
        assert("users"@.len() != "language"@.len());
    }
    assert("users"@ != "region"@) by {
        assert("users"@.len() != "region"@.len());
    }
    assert("users"@ != "storage"@) by {
        assert("users"@.len() != "storage"@.len());
    }
    assert("users"@ != "printers"@) by {
        assert("users"@.len() != "printers"@.len());
    }
    assert("users"@ != "sharing"@) by {
        assert("users"@.len() != "sharing"@.len());
    }
    assert("users"@ != "updates"@) by {
        assert("users"@.len() != "updates"@.len());
    }
    assert("users"@ != "developer"@) by {
        assert("users"@.len() != "developer"@.len());
    }
    assert("users"@ != "about"@) by {
        assert("users"@[0] != "about"@[0]);
    }
    assert("privacy"@ != "security"@) by {
        assert("privacy"@.len() != "security"@.len());
    }
    assert("privacy"@ != "applications"@) by {
        assert("privacy"@.len() != "applications"@.len());
    }
    assert("privacy"@ != "notifications"@) by {
        assert("privacy"@.len() != "notifications"@.len());
    }
    assert("privacy"@ != "accessibility"@) by {
        assert("privacy"@.len() != "accessibility"@.len());
    }
    assert("privacy"@ != "date_time"@) by {
        assert("privacy"@.len() != "date_time"@.len());
    }
    assert("privacy"@ != "language"@) by {
        assert("privacy"@.len() != "language"@.len());
    }
    assert("privacy"@ != "region"@) by {
        assert("privacy"@.len() != "region"@.len());
    }
    assert("privacy"@ != "storage"@) by {
        assert("privacy"@[0] != "storage"@[0]);
    }
    assert("privacy"@ != "printers"@) by {
        assert("privacy"@.len() != "printers"@.len());
    }
    assert("privacy"@ != "sharing"@) by {
        assert("privacy"@[0] != "sharing"@[0]);
    }
    assert("privacy"@ != "updates"@) by {
        assert("privacy"@[0] != "updates"@[0]);
    }
    assert("privacy"@ != "developer"@) by {
        assert("privacy"@.len() != "developer"@.len());
    }
    assert("privacy"@ != "about"@) by {
        assert("privacy"@.len() != "about"@.len());
    }
    assert("security"@ != "applications"@) by {
        assert("security"@.len() != "applications"@.len());
    }
    assert("security"@ != "notifications"@) by {
        assert("security"@.len() != "notifications"@.len());
    }
    assert("security"@ != "accessibility"@) by {
        assert("security"@.len() != "accessibility"@.len());
    }
    assert("security"@ != "date_time"@) by {
        assert("security"@.len() != "date_time"@.len());
    }
    assert("security"@ != "language"@) by {
        assert("security"@[0] != "language"@[0]);
    }
    assert("security"@ != "region"@) by {
        assert("security"@.len() != "region"@.len());
    }
    assert("security"@ != "storage"@) by {
        assert("security"@.len() != "storage"@.len());
    }
    assert("security"@ != "printers"@) by {
        assert("security"@[0] != "printers"@[0]);
    }
    assert("security"@ != "sharing"@) by {
        assert("security"@.len() != "sharing"@.len());
    }
    assert("security"@ != "updates"@) by {
        assert("security"@.len() != "updates"@.len());
    }
    assert("security"@ != "developer"@) by {
        assert("security"@.len() != "developer"@.len());
    }
    assert("security"@ != "about"@) by {
        assert("security"@.len() != "about"@.len());
    }
    assert("applications"@ != "notifications"@) by {
        assert("applications"@.len() != "notifications"@.len());
    }
    assert("applications"@ != "accessibility"@) by {
        assert("applications"@.len() != "accessibility"@.len());
    }
    assert("applications"@ != "date_time"@) by {
        assert("applications"@.len() != "date_time"@.len());
    }
    assert("applications"@ != "language"@) by {
        assert("applications"@.len() != "language"@.len());
    }
    assert("applications"@ != "region"@) by {
        assert("applications"@.len() != "region"@.len());
    }
    assert("applications"@ != "storage"@) by {
        assert("applications"@.len() != "storage"@.len());
    }
    assert("applications"@ != "printers"@) by {
        assert("applications"@.len() != "printers"@.len());
    }
    assert("applications"@ != "sharing"@) by {
        assert("applications"@.len() != "sharing"@.len());
    }
    assert("applications"@ != "updates"@) by {
        assert("applications"@.len() != "updates"@.len());
    }
    assert("applications"@ != "developer"@) by {
        assert("applications"@.len() != "developer"@.len());
    }
    assert("applications"@ != "about"@) by {
        assert("applications"@.len() != "about"@.len());
    }
    assert("notifications"@ != "accessibility"@) by {
        assert("notifications"@[0] != "accessibility"@[0]);
    }
    assert("notifications"@ != "date_time"@) by {
        assert("notifications"@.len() != "date_time"@.len());
    }
    assert("notifications"@ != "language"@) by {
        assert("notifications"@.len() != "language"@.len());
    }
    assert("notifications"@ != "region"@) by {
        assert("notifications"@.len() != "region"@.len());
    }
    assert("notifications"@ != "storage"@) by {
        assert("notifications"@.len() != "storage"@.len());
    }
    assert("notifications"@ != "printers"@) by {
        assert("notifications"@.len() != "printers"@.len());
    }
    assert("notifications"@ != "sharing"@) by {
        assert("notifications"@.len() != "sharing"@.len());
    }
    assert("notifications"@ != "updates"@) by {
        assert("notifications"@.len() != "updates"@.len());
    }
    assert("notifications"@ != "developer"@) by {
        assert("notifications"@.len() != "developer"@.len());
    }
    assert("notifications"@ != "about"@) by {
        assert("notifications"@.len() != "about"@.len());
    }
    assert("accessibility"@ != "date_time"@) by {
        assert("accessibility"@.len() != "date_time"@.len());
    }
    assert("accessibility"@ != "language"@) by {
        assert("accessibility"@.len() != "language"@.len());
    }
    assert("accessibility"@ != "region"@) by {
        assert("accessibility"@.len() != "region"@.len());
    }
    assert("accessibility"@ != "storage"@) by {
        assert("accessibility"@.len() != "storage"@.len());
    }
    assert("accessibility"@ != "printers"@) by {
        assert("accessibility"@.len() != "printers"@.len());
    }
    assert("accessibility"@ != "sharing"@) by {
        assert("accessibility"@.len() != "sharing"@.len());
    }
    assert("accessibility"@ != "updates"@) by {
        assert("accessibility"@.len() != "updates"@.len());
    }
    assert("accessibility"@ != "developer"@) by {
        assert("accessibility"@.len() != "developer"@.len());
    }
    assert("accessibility"@ != "about"@) by {
        assert("accessibility"@.len() != "about"@.len());
    }
    assert("date_time"@ != "language"@) by {
        assert("date_time"@.len() != "language"@.len());
    }
    assert("date_time"@ != "region"@) by {
        assert("date_time"@.len() != "region"@.len());
    }
    assert("date_time"@ != "storage"@) by {
        assert("date_time"@.len() != "storage"@.len());
    }
    assert("date_time"@ != "printers"@) by {
        assert("date_time"@.len() != "printers"@.len());
    }
    assert("date_time"@ != "sharing"@) by {
        assert("date_time"@.len() != "sharing"@.len());
    }
    assert("date_time"@ != "updates"@) by {
        assert("date_time"@.len() != "updates"@.len());
    }
    assert("date_time"@ != "developer"@) by {
        assert("date_time"@[1] != "developer"@[1]);
    }
    assert("date_time"@ != "about"@) by {
        assert("date_time"@.len() != "about"@.len());
    }
    assert("language"@ != "region"@) by {
        assert("language"@.len() != "region"@.len());
    }
    assert("language"@ != "storage"@) by {
        assert("language"@.len() != "storage"@.len());
    }
    assert("language"@ != "printers"@) by {
        assert("language"@[0] != "printers"@[0]);
    }
    assert("language"@ != "sharing"@) by {
        assert("language"@.len() != "sharing"@.len());
    }
    assert("language"@ != "updates"@) by {
        assert("language"@.len() != "updates"@.len());
    }
    assert("language"@ != "developer"@) by {
        assert("language"@.len() != "developer"@.len());
    }
    assert("language"@ != "about"@) by {
        assert("language"@.len() != "about"@.len());
    }
    assert("region"@ != "storage"@) by {
        assert("region"@.len() != "storage"@.len());
    }
    assert("region"@ != "printers"@) by {
        assert("region"@.len() != "printers"@.len());
    }
    assert("region"@ != "sharing"@) by {
        assert("region"@.len() != "sharing"@.len());
    }
    assert("region"@ != "updates"@) by {
        assert("region"@.len() != "updates"@.len());
    }
    assert("region"@ != "developer"@) by {
        assert("region"@.len() != "developer"@.len());
    }
    assert("region"@ != "about"@) by {
        assert("region"@.len() != "about"@.len());
    }
    assert("storage"@ != "printers"@) by {
        assert("storage"@.len() != "printers"@.len());
    }
    assert("storage"@ != "sharing"@) by {
        assert("storage"@[1] != "sharing"@[1]);
    }
    assert("storage"@ != "updates"@) by {
        assert("storage"@[0] != "updates"@[0]);
    }
    assert("storage"@ != "developer"@) by {
        assert("storage"@.len() != "developer"@.len());
    }
    assert("storage"@ != "about"@) by {
        assert("storage"@.len() != "about"@.len());
    }
    assert("printers"@ != "sharing"@) by {
        assert("printers"@.len() != "sharing"@.len());
    }
    assert("printers"@ != "updates"@) by {
        assert("printers"@.len() != "updates"@.len());
    }
    assert("printers"@ != "developer"@) by {
        assert("printers"@.len() != "developer"@.len());
    }
    assert("printers"@ != "about"@) by {
        assert("printers"@.len() != "about"@.len());
    }
    assert("sharing"@ != "updates"@) by {
        assert("sharing"@[0] != "updates"@[0]);
    }
    assert("sharing"@ != "developer"@) by {
        assert("sharing"@.len() != "developer"@.len());
    }
    assert("sharing"@ != "about"@) by {
        assert("sharing"@.len() != "about"@.len());
    }
    assert("updates"@ != "developer"@) by {
        assert("updates"@.len() != "developer"@.len());
    }
    assert("updates"@ != "about"@) by {
        assert("updates"@.len() != "about"@.len());
    }
    assert("developer"@ != "about"@) by {
        assert("developer"@.len() != "about"@.len());
    }
    assert forall|i: int| 0 <= i < navigator().len() implies navigator_position(#[trigger] navigator()[i].spec_id()) == i by {
        if i == 0 {
        } else if i == 1 {
        } else if i == 2 {
        } else if i == 3 {
        } else if i == 4 {
        } else if i == 5 {
        } else if i == 6 {
        } else if i == 7 {
        } else if i == 8 {
        } else if i == 9 {
        } else if i == 10 {
        } else if i == 11 {
        } else if i == 12 {
        } else if i == 13 {
        } else if i == 14 {
        } else if i == 15 {
        } else if i == 16 {
        } else if i == 17 {
        } else if i == 18 {
        } else if i == 19 {
        } else if i == 20 {
        } else if i == 21 {
        } else if i == 22 {
        } else if i == 23 {
        } else if i == 24 {
        } else if i == 25 {
        } else {
        }
    }
}

/// Every setting a navigator category registers belongs to that category,
/// and its default meets the setting's own constraints.
pub proof fn lemma_registered_defaults_are_valid(c: AnyCategory)
    ensures
        forall|i: int|
            0 <= i < c.spec_settings().len() ==> #[trigger] c.spec_settings()[i].default_is_valid()
                && c.spec_settings()[i].category == c.spec_id(),
{
    match c {
        AnyCategory::Appearance(_) => crate::categories::appearance::lemma_appearance_defaults_valid(),
        AnyCategory::Theme(_) => crate::categories::theme::lemma_theme_defaults_valid(),
        AnyCategory::Wallpaper(_) => crate::categories::wallpaper::lemma_wallpaper_defaults_valid(),
        AnyCategory::Display(_) => crate::categories::display::lemma_display_defaults_valid(),
        AnyCategory::Sound(_) => crate::categories::sound::lemma_sound_defaults_valid(),
        AnyCategory::Network(_) => crate::categories::network::lemma_network_defaults_valid(),
        AnyCategory::Bluetooth(_) => crate::categories::bluetooth::lemma_bluetooth_defaults_valid(),
        AnyCategory::Keyboard(_) => crate::categories::keyboard::lemma_keyboard_defaults_valid(),
        AnyCategory::Mouse(_) => crate::categories::mouse::lemma_mouse_defaults_valid(),
        AnyCategory::Touchpad(_) => crate::categories::touchpad::lemma_touchpad_defaults_valid(),
        AnyCategory::Power(_) => crate::categories::power::lemma_power_defaults_valid(),
        AnyCategory::Battery(_) => crate::categories::battery::lemma_battery_defaults_valid(),
        AnyCategory::Users(_) => crate::categories::users::lemma_users_defaults_valid(),
        AnyCategory::Privacy(_) => crate::categories::privacy::lemma_privacy_defaults_valid(),
        AnyCategory::Security(_) => crate::categories::security::lemma_security_defaults_valid(),
        AnyCategory::Applications(_) => crate::categories::applications::lemma_applications_defaults_valid(),
        AnyCategory::Notifications(_) => crate::categories::notifications::lemma_notifications_defaults_valid(),
        AnyCategory::Accessibility(_) => crate::categories::accessibility::lemma_accessibility_defaults_valid(),
        AnyCategory::DateTime(_) => crate::categories::date_time::lemma_date_time_defaults_valid(),
        AnyCategory::Language(_) => crate::categories::language::lemma_language_defaults_valid(),
        AnyCategory::Region(_) => crate::categories::region::lemma_region_defaults_valid(),
        AnyCategory::Storage(_) => crate::categories::storage::lemma_storage_defaults_valid(),
        AnyCategory::Printers(_) => crate::categories::printers::lemma_printers_defaults_valid(),
        AnyCategory::Sharing(_) => crate::categories::sharing::lemma_sharing_defaults_valid(),
        AnyCategory::Updates(_) => crate::categories::updates::lemma_updates_defaults_valid(),
        AnyCategory::Developer(_) => crate::categories::developer::lemma_developer_defaults_valid(),
        AnyCategory::About(_) => crate::categories::about::lemma_about_defaults_valid(),
    }
}

} // verus!
