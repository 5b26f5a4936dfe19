//! The registry of every setting: its key, its category, how it is shown,
//! the kind of value it holds, its default, who may change it, and the
//! constraints a new value must meet.

use vstd::prelude::*;
use crate::permissions::PrivilegeLevel;
use crate::settings::value::{Milli, Value, ValueKind, ValueView};

verus! {

/// A textual format a `Str` setting must follow.
#[derive(Debug, Clone, Copy, PartialEq, Eq)]
pub enum ValueFormat {
    /// `#RGB`, `#RRGGBB` or `#RRGGBBAA`, with hexadecimal digits.
    HexColor,
}

/// How a category appears in the navigator.
#[derive(Debug, Clone, Copy)]
pub struct CategoryMeta {
    pub id: &'static str,
    pub name: &'static str,
    pub icon: &'static str,
    pub subitems: &'static [&'static str],
}

/// A category's navigator entry as a mathematical object.
pub struct CategoryMetaView {
    pub id: Seq<char>,
    pub name: Seq<char>,
    pub icon: Seq<char>,
    pub subitems: Seq<Seq<char>>,
}

/// The characters of each string in a slice of strings.
pub open spec fn strs_view(s: Seq<&'static str>) -> Seq<Seq<char>> {
    s.map_values(|t: &'static str| t@)
}

impl View for CategoryMeta {
    type V = CategoryMetaView;

    open spec fn view(&self) -> CategoryMetaView {
        CategoryMetaView {
            id: self.id@,
            name: self.name@,
            icon: self.icon@,
            subitems: strs_view(self.subitems@),
        }
    }
}

/// One setting's description.
#[derive(Debug)]
pub struct SettingSpec {
    pub key: &'static str,
    pub category: &'static str,
    pub label: &'static str,
    pub description: &'static str,
    pub kind: ValueKind,
    pub default: Value,
    pub privilege: PrivilegeLevel,
    /// Inclusive bounds a number must stay within, in thousandths.
    pub range: Option<(Milli, Milli)>,
    /// The only values a `Str` setting may take.
    pub choices: Option<&'static [&'static str]>,
    /// Shown but never changed through the settings interface.
    pub read_only: bool,
    pub format: Option<ValueFormat>,
    /// Takes effect only after a restart.
    pub requires_restart: bool,
    /// Changes only after a separate confirmation.
    pub dangerous: bool,
}

/// A setting's description as a mathematical object.
pub struct SpecView {
    pub key: Seq<char>,
    pub category: Seq<char>,
    pub label: Seq<char>,
    pub description: Seq<char>,
    pub kind: ValueKind,
    pub default: ValueView,
    pub privilege: PrivilegeLevel,
    pub range: Option<(int, int)>,
    pub choices: Option<Seq<Seq<char>>>,
    pub read_only: bool,
    pub format: Option<ValueFormat>,
    pub requires_restart: bool,
    pub dangerous: bool,
}

impl SpecView {
    /// A setting with no constraints and no flags.
    pub open spec fn new(
        key: Seq<char>,
        category: Seq<char>,
        label: Seq<char>,
        description: Seq<char>,
        kind: ValueKind,
        default: ValueView,
        privilege: PrivilegeLevel,
    ) -> SpecView {
        SpecView {
            key,
            category,
            label,
            description,
            kind,
            default,
            privilege,
            range: None,
            choices: None,
            read_only: false,
            format: None,
            requires_restart: false,
            dangerous: false,
        }
    }

    pub open spec fn with_range(self, lo: int, hi: int) -> SpecView {
        SpecView { range: Some((lo, hi)), ..self }
    }

    pub open spec fn with_choices(self, choices: Seq<Seq<char>>) -> SpecView {
        SpecView { choices: Some(choices), ..self }
    }

    pub open spec fn with_format(self, format: ValueFormat) -> SpecView {
        SpecView { format: Some(format), ..self }
    }

    pub open spec fn with_read_only(self) -> SpecView {
        SpecView { read_only: true, ..self }
    }

    pub open spec fn with_requires_restart(self) -> SpecView {
        SpecView { requires_restart: true, ..self }
    }

    pub open spec fn with_dangerous(self) -> SpecView {
        SpecView { dangerous: true, ..self }
    }

    /// The setting's own default meets every constraint the setting
    /// declares: it is of the declared kind, a declared range is not empty
    /// and holds it, a declared choice list names it, and a declared format
    /// accepts it.
    pub open spec fn default_is_valid(self) -> bool {
        &&& self.default.kind() == self.kind
        &&& (self.range matches Some((lo, hi)) ==> {
            &&& lo <= hi
            &&& self.default.milli() matches Some(m) && lo <= m <= hi
        })
        &&& (self.choices matches Some(cs) ==> (self.default matches ValueView::Str(s) && cs.contains(s)))
        &&& (self.format matches Some(ValueFormat::HexColor) ==> (self.default matches ValueView::Str(s) && is_hex_color(s)))
    }
}

/// A hexadecimal digit.
pub open spec fn is_hex_digit(c: char) -> bool {
    ('0' <= c && c <= '9') || ('a' <= c && c <= 'f') || ('A' <= c && c <= 'F')
}

/// `#` followed by three, six or eight hexadecimal digits.
pub open spec fn is_hex_color(s: Seq<char>) -> bool {
    &&& (s.len() == 4 || s.len() == 7 || s.len() == 9)
    &&& s[0] == '#'
    &&& forall|i: int| 1 <= i < s.len() ==> is_hex_digit(#[trigger] s[i])
}

impl View for SettingSpec {
    type V = SpecView;

    open spec fn view(&self) -> SpecView {
        SpecView {
            key: self.key@,
            category: self.category@,
            label: self.label@,
            description: self.description@,
            kind: self.kind,
            default: self.default@,
            privilege: self.privilege,
            range: match self.range {
                Some((lo, hi)) => Some((lo.0 as int, hi.0 as int)),
                None => None,
            },
            choices: match self.choices {
                Some(cs) => Some(strs_view(cs@)),
                None => None,
            },
            read_only: self.read_only,
            format: self.format,
            requires_restart: self.requires_restart,
            dangerous: self.dangerous,
        }
    }
}

impl SettingSpec {
    /// A setting with no constraints and no flags.
    pub fn new(
        key: &'static str,
        category: &'static str,
        label: &'static str,
        description: &'static str,
        kind: ValueKind,
        default: Value,
        privilege: PrivilegeLevel,
    ) -> (r: SettingSpec)
        ensures
            r@ == SpecView::new(key@, category@, label@, description@, kind, default@, privilege),
    {
        SettingSpec {
            key,
            category,
            label,
            description,
            kind,
            default,
            privilege,
            range: None,
            choices: None,
            read_only: false,
            format: None,
            requires_restart: false,
            dangerous: false,
        }
    }

    /// Bounds a number to `lo..=hi`.
    pub fn range(self, lo: Milli, hi: Milli) -> (r: SettingSpec)
        ensures
            r@ == self@.with_range(lo.0 as int, hi.0 as int),
    {
        SettingSpec { range: Some((lo, hi)), ..self }
    }

    /// Restricts a string to the given choices.
    pub fn choices(self, choices: &'static [&'static str]) -> (r: SettingSpec)
        ensures
            r@ == self@.with_choices(strs_view(choices@)),
    {
        SettingSpec { choices: Some(choices), ..self }
    }

    /// Requires a string to follow `format`.
    pub fn format(self, format: ValueFormat) -> (r: SettingSpec)
        ensures
            r@ == self@.with_format(format),
    {
        SettingSpec { format: Some(format), ..self }
    }

    /// Marks the setting as shown but never changed.
    pub fn read_only(self) -> (r: SettingSpec)
        ensures
            r@ == self@.with_read_only(),
    {
        SettingSpec { read_only: true, ..self }
    }

    /// Marks the setting as taking effect only after a restart.
    pub fn requires_restart(self) -> (r: SettingSpec)
        ensures
            r@ == self@.with_requires_restart(),
    {
        SettingSpec { requires_restart: true, ..self }
    }

    /// Marks the setting as needing a separate confirmation to change.
    pub fn dangerous(self) -> (r: SettingSpec)
        ensures
            r@ == self@.with_dangerous(),
    {
        SettingSpec { dangerous: true, ..self }
    }
}

/// Every registered setting and category, in registration order.
pub struct Schema {
    specs: Vec<SettingSpec>,
    categories: Vec<CategoryMeta>,
}

/// A schema as a mathematical object.
pub struct SchemaView {
    pub specs: Seq<SpecView>,
    pub categories: Seq<CategoryMetaView>,
}

impl View for Schema {
    type V = SchemaView;

    closed spec fn view(&self) -> SchemaView {
        SchemaView {
            specs: self.specs@.map_values(|s: SettingSpec| s@),
            categories: self.categories@.map_values(|c: CategoryMeta| c@),
        }
    }
}

/// The settings of `specs` that belong to `category`, in order.
pub open spec fn in_category(specs: Seq<SpecView>, category: Seq<char>) -> Seq<SpecView> {
    specs.filter(|s: SpecView| s.category == category)
}

impl Schema {
    /// An empty schema.
    pub fn new() -> (r: Schema)
        ensures
            r@.specs.len() == 0,
            r@.categories.len() == 0,
    {
        let r = Schema { specs: Vec::new(), categories: Vec::new() };
        assert(r@.specs =~= Seq::<SpecView>::empty());
        assert(r@.categories =~= Seq::<CategoryMetaView>::empty());
        r
    }

    /// Adds a setting after every setting registered so far.
    pub fn register(&mut self, spec: SettingSpec)
        ensures
            final(self)@.specs == old(self)@.specs.push(spec@),
            final(self)@.categories == old(self)@.categories,
    {
        let ghost view = spec@;
        self.specs.push(spec);
        assert(self@.specs =~= old(self)@.specs.push(view));
    }

    /// Adds a category after every category registered so far.
    pub fn register_category(&mut self, meta: CategoryMeta)
        ensures
            final(self)@.categories == old(self)@.categories.push(meta@),
            final(self)@.specs == old(self)@.specs,
    {
        self.categories.push(meta);
        assert(self@.categories =~= old(self)@.categories.push(meta@));
    }

    /// Whether no setting is registered.
    pub fn is_empty(&self) -> (r: bool)
        ensures
            r == (self@.specs.len() == 0),
    {
        self.specs.len() == 0
    }

    /// The number of registered settings.
    pub fn len(&self) -> (r: usize)
        ensures
            r == self@.specs.len(),
    {
        self.specs.len()
    }

    /// Every registered category, in registration order.
    pub fn categories(&self) -> (r: &[CategoryMeta])
        ensures
            r@.map_values(|c: CategoryMeta| c@) == self@.categories,
    {
        self.categories.as_slice()
    }

    /// Every registered setting, in registration order.
    pub fn all(&self) -> (r: &[SettingSpec])
        ensures
            r@.map_values(|s: SettingSpec| s@) == self@.specs,
    {
        self.specs.as_slice()
    }

    /// The first registered setting whose key is `key`.
    pub fn get(&self, key: &str) -> (r: Option<&SettingSpec>)
        ensures
            match r {
                Some(s) => exists|i: int|
                    0 <= i < self@.specs.len() && s@ == self@.specs[i] && self@.specs[i].key == key@
                        && forall|j: int| 0 <= j < i ==> self@.specs[j].key != key@,
                None => forall|j: int| 0 <= j < self@.specs.len() ==> self@.specs[j].key != key@,
            },
    {
        let mut i: usize = 0;
        while i < self.specs.len()
            invariant
                i <= self.specs@.len(),
                self@.specs == self.specs@.map_values(|s: SettingSpec| s@),
                forall|j: int| 0 <= j < i ==> self@.specs[j].key != key@,
            decreases self.specs.len() - i,
        {
            if crate::text::str_eq(self.specs[i].key, key) {
                assert(self@.specs[i as int] == self.specs@[i as int]@);
                return Some(&self.specs[i]);
            }
            i += 1;
        }
        None
    }

    /// The first registered category whose id is `id`.
    pub fn category(&self, id: &str) -> (r: Option<&CategoryMeta>)
        ensures
            match r {
                Some(c) => exists|i: int|
                    0 <= i < self@.categories.len() && c@ == self@.categories[i]
                        && self@.categories[i].id == id@
                        && forall|j: int| 0 <= j < i ==> self@.categories[j].id != id@,
                None => forall|j: int| 0 <= j < self@.categories.len() ==> self@.categories[j].id != id@,
            },
    {
        let mut i: usize = 0;
        while i < self.categories.len()
            invariant
                i <= self.categories@.len(),
                self@.categories == self.categories@.map_values(|c: CategoryMeta| c@),
                forall|j: int| 0 <= j < i ==> self@.categories[j].id != id@,
            decreases self.categories.len() - i,
        {
            if crate::text::str_eq(self.categories[i].id, id) {
                assert(self@.categories[i as int] == self.categories@[i as int]@);
                return Some(&self.categories[i]);
            }
            i += 1;
        }
        None
    }

    /// The settings that belong to `category`, in registration order.
    pub fn by_category(&self, category: &str) -> (r: Vec<&SettingSpec>)
        ensures
            r@.map_values(|s: &SettingSpec| s@) == in_category(self@.specs, category@),
    {
        let mut out: Vec<&SettingSpec> = Vec::new();
        let mut i: usize = 0;
        while i < self.specs.len()
            invariant
                i <= self.specs@.len(),
                self@.specs == self.specs@.map_values(|s: SettingSpec| s@),
                out@.map_values(|s: &SettingSpec| s@) == in_category(self@.specs.take(i as int), category@),
            decreases self.specs.len() - i,
        {
            proof {
                let pred = |s: SpecView| s.category == category@;
                assert(self@.specs.take(i + 1) =~= self@.specs.take(i as int).push(self@.specs[i as int]));
                self@.specs.take(i as int).lemma_filter_push(self@.specs[i as int], pred);
            }
            if crate::text::str_eq(self.specs[i].category, category) {
                out.push(&self.specs[i]);
            }
            proof {
                let f = |s: &SettingSpec| s@;
                assert(out@.map_values(f) =~= in_category(self@.specs.take(i + 1), category@));
            }
            i += 1;
        }
        assert(self@.specs.take(self.specs@.len() as int) =~= self@.specs);
        out
    }
}

} // verus!
