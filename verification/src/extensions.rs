//! The extension mechanism: independently built optional modules contribute
//! named, typed configuration sub-sections.
//!
//! A registry, built once at process start and read-only afterwards, maps a
//! stable identifier to the description of a sub-section: its type tag and
//! its fields with their defaults. The aggregate stores each populated
//! sub-section as a tagged bag of plain fields; typed retrieval checks the
//! tag and fails distinctly when the identifier is absent versus when the
//! stored tag does not match the requested one.

use vstd::prelude::*;

use crate::error::SettingsError;
use crate::model::{AppSettings, AppSettingsModel};
use crate::strutil::str_eq;

verus! {

/// One plain field of an extension sub-section.
#[derive(Debug, PartialEq)]
pub struct ExtensionField {
    pub name: String,
    pub value: String,
}

/// Spec-level shape of an [`ExtensionField`].
pub struct ExtensionFieldModel {
    pub name: Seq<char>,
    pub value: Seq<char>,
}

impl View for ExtensionField {
    type V = ExtensionFieldModel;

    open spec fn view(&self) -> ExtensionFieldModel {
        ExtensionFieldModel { name: self.name@, value: self.value@ }
    }
}

impl Clone for ExtensionField {
    fn clone(&self) -> (r: Self)
        ensures
            r@ == self@,
    {
        ExtensionField { name: self.name.clone(), value: self.value.clone() }
    }
}

/// An extension's populated configuration sub-section: a type tag naming
/// the concrete shape the owning module expects, and the field values.
#[derive(Debug, PartialEq)]
pub struct ExtensionSettings {
    pub type_tag: String,
    pub fields: Vec<ExtensionField>,
}

/// Spec-level shape of an [`ExtensionSettings`].
pub struct ExtensionSettingsModel {
    pub type_tag: Seq<char>,
    pub fields: Seq<ExtensionFieldModel>,
}

impl View for ExtensionSettings {
    type V = ExtensionSettingsModel;

    open spec fn view(&self) -> ExtensionSettingsModel {
        ExtensionSettingsModel {
            type_tag: self.type_tag@,
            fields: self.fields@.map_values(|f: ExtensionField| f@),
        }
    }
}

impl Clone for ExtensionSettings {
    fn clone(&self) -> (r: Self)
        ensures
            r@ == self@,
    {
        let mut fields: Vec<ExtensionField> = Vec::new();
        let n: usize = self.fields.len();
        let mut i: usize = 0;
        while i < n
            invariant
                n == self.fields@.len(),
                i <= n,
                fields@.len() == i,
                forall|j: int| 0 <= j < i ==> #[trigger] fields@[j]@ == self.fields@[j]@,
            decreases n - i,
        {
            fields.push(self.fields[i].clone());
            i = i + 1;
        }
        let r = ExtensionSettings { type_tag: self.type_tag.clone(), fields };
        proof {
            assert(r@.fields =~= self@.fields);
        }
        r
    }
}

/// One entry of the aggregate's extension map.
#[derive(Debug, PartialEq)]
pub struct ExtensionEntry {
    pub identifier: String,
    pub settings: ExtensionSettings,
}

/// Spec-level shape of an [`ExtensionEntry`].
pub struct ExtensionEntryModel {
    pub identifier: Seq<char>,
    pub settings: ExtensionSettingsModel,
}

impl View for ExtensionEntry {
    type V = ExtensionEntryModel;

    open spec fn view(&self) -> ExtensionEntryModel {
        ExtensionEntryModel { identifier: self.identifier@, settings: self.settings@ }
    }
}

impl Clone for ExtensionEntry {
    fn clone(&self) -> (r: Self)
        ensures
            r@ == self@,
    {
        ExtensionEntry { identifier: self.identifier.clone(), settings: self.settings.clone() }
    }
}

/// One field an extension declares: its name and the default used when the
/// flat store has no row for it.
#[derive(Debug, PartialEq)]
pub struct ExtensionFieldSpec {
    pub name: String,
    pub default_value: String,
}

/// Spec-level shape of an [`ExtensionFieldSpec`].
pub struct ExtensionFieldSpecModel {
    pub name: Seq<char>,
    pub default_value: Seq<char>,
}

impl View for ExtensionFieldSpec {
    type V = ExtensionFieldSpecModel;

    open spec fn view(&self) -> ExtensionFieldSpecModel {
        ExtensionFieldSpecModel { name: self.name@, default_value: self.default_value@ }
    }
}

/// What an extension registers: its stable identifier (also its storage
/// namespace), its type tag, and its declared fields. The field list plays
/// the part of the serializer/deserializer pair: writing walks it to emit
/// one row per field, reading walks it to parse or default each field.
#[derive(Debug, PartialEq)]
pub struct ExtensionDescriptor {
    pub identifier: String,
    pub type_tag: String,
    pub fields: Vec<ExtensionFieldSpec>,
}

/// Spec-level shape of an [`ExtensionDescriptor`].
pub struct ExtensionDescriptorModel {
    pub identifier: Seq<char>,
    pub type_tag: Seq<char>,
    pub fields: Seq<ExtensionFieldSpecModel>,
}

impl View for ExtensionDescriptor {
    type V = ExtensionDescriptorModel;

    open spec fn view(&self) -> ExtensionDescriptorModel {
        ExtensionDescriptorModel {
            identifier: self.identifier@,
            type_tag: self.type_tag@,
            fields: self.fields@.map_values(|f: ExtensionFieldSpec| f@),
        }
    }
}

/// The first position in `entries` whose identifier is `id`, or the length
/// when there is none.
pub open spec fn find_descriptor(entries: Seq<ExtensionDescriptorModel>, id: Seq<char>) -> int
    decreases entries.len(),
{
    if entries.len() == 0 {
        0
    } else if entries[0].identifier == id {
        0
    } else {
        1 + find_descriptor(entries.drop_first(), id)
    }
}

proof fn lemma_find_descriptor(entries: Seq<ExtensionDescriptorModel>, id: Seq<char>)
    ensures
        0 <= find_descriptor(entries, id) <= entries.len(),
        find_descriptor(entries, id) < entries.len() ==> entries[find_descriptor(
            entries,
            id,
        )].identifier == id,
        forall|j: int| 0 <= j < find_descriptor(entries, id) ==> entries[j].identifier != id,
    decreases entries.len(),
{
    if entries.len() > 0 && entries[0].identifier != id {
        lemma_find_descriptor(entries.drop_first(), id);
        assert forall|j: int| 0 <= j < find_descriptor(entries, id) implies entries[j].identifier
            != id by {
            if j > 0 {
                assert(entries.drop_first()[j - 1] == entries[j]);
            }
        }
    }
}

/// What registering a descriptor does to the registry contents: replace the
/// entry with the same identifier, or append.
pub open spec fn spec_register(
    entries: Seq<ExtensionDescriptorModel>,
    d: ExtensionDescriptorModel,
) -> Seq<ExtensionDescriptorModel> {
    let i = find_descriptor(entries, d.identifier);
    if i < entries.len() {
        entries.update(i, d)
    } else {
        entries.push(d)
    }
}

/// The process-wide list of registered extension sub-sections, built
/// explicitly at process start and handed by reference to the cache, never
/// mutated afterwards.
pub struct ExtensionRegistry {
    entries: Vec<ExtensionDescriptor>,
}

impl View for ExtensionRegistry {
    type V = Seq<ExtensionDescriptorModel>;

    closed spec fn view(&self) -> Seq<ExtensionDescriptorModel> {
        self.entries@.map_values(|d: ExtensionDescriptor| d@)
    }
}

impl ExtensionRegistry {
    /// An empty registry.
    pub fn new() -> (r: ExtensionRegistry)
        ensures
            r@ == Seq::<ExtensionDescriptorModel>::empty(),
    {
        let r = ExtensionRegistry { entries: Vec::new() };
        proof {
            assert(r@ =~= Seq::<ExtensionDescriptorModel>::empty());
        }
        r
    }

    /// How many sub-sections are registered.
    pub fn len(&self) -> (n: usize)
        ensures
            n == self@.len(),
    {
        self.entries.len()
    }

    /// The descriptor at a position.
    pub fn descriptor_at<'a>(&'a self, i: usize) -> (d: &'a ExtensionDescriptor)
        requires
            i < self@.len(),
        ensures
            d@ == self@[i as int],
    {
        &self.entries[i]
    }

    /// Registers a sub-section; registering an identifier a second time
    /// replaces the first registration.
    pub fn register(&mut self, descriptor: ExtensionDescriptor)
        ensures
            final(self)@ == spec_register(old(self)@, descriptor@),
    {
        let n: usize = self.entries.len();
        let mut i: usize = 0;
        proof {
            lemma_find_descriptor(self@, descriptor@.identifier);
        }
        while i < n
            invariant
                *self == *old(self),
                n == self.entries@.len(),
                i <= n,
                forall|j: int| 0 <= j < i ==> #[trigger] self@[j].identifier != descriptor@.identifier,
            decreases n - i,
        {
            if str_eq(self.entries[i].identifier.as_str(), descriptor.identifier.as_str()) {
                proof {
                    assert(self@[i as int].identifier == descriptor@.identifier);
                    lemma_find_descriptor(self@, descriptor@.identifier);
                    assert(find_descriptor(self@, descriptor@.identifier) == i);
                }
                let ghost pre = self@;
                self.entries[i] = descriptor;
                proof {
                    assert(self@ =~= spec_register(pre, self.entries@[i as int]@));
                }
                return;
            }
            i = i + 1;
        }
        proof {
            lemma_find_descriptor(self@, descriptor@.identifier);
            assert(find_descriptor(self@, descriptor@.identifier) == n);
        }
        let ghost pre = self@;
        let ghost dm = descriptor@;
        self.entries.push(descriptor);
        proof {
            assert(self@ =~= pre.push(dm));
        }
    }
}

/// The first position in `entries` whose identifier is `id`, or the length
/// when there is none.
pub open spec fn find_entry(entries: Seq<ExtensionEntryModel>, id: Seq<char>) -> int
    decreases entries.len(),
{
    if entries.len() == 0 {
        0
    } else if entries[0].identifier == id {
        0
    } else {
        1 + find_entry(entries.drop_first(), id)
    }
}

proof fn lemma_find_entry(entries: Seq<ExtensionEntryModel>, id: Seq<char>)
    ensures
        0 <= find_entry(entries, id) <= entries.len(),
        find_entry(entries, id) < entries.len() ==> entries[find_entry(entries, id)].identifier
            == id,
        forall|j: int| 0 <= j < find_entry(entries, id) ==> entries[j].identifier != id,
    decreases entries.len(),
{
    if entries.len() > 0 && entries[0].identifier != id {
        lemma_find_entry(entries.drop_first(), id);
        assert forall|j: int| 0 <= j < find_entry(entries, id) implies entries[j].identifier
            != id by {
            if j > 0 {
                assert(entries.drop_first()[j - 1] == entries[j]);
            }
        }
    }
}

/// The first position in `entries` whose settings carry `tag`, or the
/// length when there is none.
pub open spec fn find_entry_by_tag(entries: Seq<ExtensionEntryModel>, tag: Seq<char>) -> int
    decreases entries.len(),
{
    if entries.len() == 0 {
        0
    } else if entries[0].settings.type_tag == tag {
        0
    } else {
        1 + find_entry_by_tag(entries.drop_first(), tag)
    }
}

proof fn lemma_find_entry_by_tag(entries: Seq<ExtensionEntryModel>, tag: Seq<char>)
    ensures
        0 <= find_entry_by_tag(entries, tag) <= entries.len(),
        find_entry_by_tag(entries, tag) < entries.len() ==> entries[find_entry_by_tag(
            entries,
            tag,
        )].settings.type_tag == tag,
        forall|j: int|
            0 <= j < find_entry_by_tag(entries, tag) ==> entries[j].settings.type_tag != tag,
    decreases entries.len(),
{
    if entries.len() > 0 && entries[0].settings.type_tag != tag {
        lemma_find_entry_by_tag(entries.drop_first(), tag);
        assert forall|j: int|
            0 <= j < find_entry_by_tag(entries, tag) implies entries[j].settings.type_tag != tag by {
            if j > 0 {
                assert(entries.drop_first()[j - 1] == entries[j]);
            }
        }
    }
}

impl AppSettings {
    /// Typed retrieval by identifier: yields the stored sub-section when its
    /// tag matches the requested one, and fails distinctly when the
    /// identifier is absent versus stored under another tag.
    pub fn get_extension_settings<'a>(&'a self, identifier: &str, type_tag: &str) -> (r: Result<
        &'a ExtensionSettings,
        SettingsError,
    >)
        ensures
            ({
                let i = find_entry(self@.extensions, identifier@);
                if i == self@.extensions.len() {
                    r matches Err(e) && e@ is ExtensionMissing
                } else if self@.extensions[i].settings.type_tag != type_tag@ {
                    r matches Err(e) && e@ is WrongExtensionType
                } else {
                    r matches Ok(s) && s@ == self@.extensions[i].settings
                }
            }),
    {
        let n: usize = self.extensions.len();
        let mut i: usize = 0;
        proof {
            lemma_find_entry(self@.extensions, identifier@);
        }
        while i < n
            invariant
                n == self@.extensions.len(),
                i <= n,
                forall|j: int|
                    0 <= j < i ==> #[trigger] self@.extensions[j].identifier != identifier@,
            decreases n - i,
        {
            if str_eq(self.extensions[i].identifier.as_str(), identifier) {
                proof {
                    assert(self@.extensions[i as int] == self.extensions@[i as int]@);
                    assert(self@.extensions[i as int].identifier == identifier@);
                    lemma_find_entry(self@.extensions, identifier@);
                    assert(find_entry(self@.extensions, identifier@) == i);
                }
                if str_eq(self.extensions[i].settings.type_tag.as_str(), type_tag) {
                    return Ok(&self.extensions[i].settings);
                } else {
                    return Err(SettingsError::ExtensionTypeMismatch);
                }
            }
            i = i + 1;
        }
        proof {
            lemma_find_entry(self@.extensions, identifier@);
        }
        Err(SettingsError::MissingExtensionSettings)
    }

    /// Typed retrieval by tag alone: the first stored sub-section carrying
    /// the requested tag, failing when no stored sub-section does.
    pub fn find_extension_settings<'a>(&'a self, type_tag: &str) -> (r: Result<
        &'a ExtensionSettings,
        SettingsError,
    >)
        ensures
            ({
                let i = find_entry_by_tag(self@.extensions, type_tag@);
                if i == self@.extensions.len() {
                    r matches Err(e) && e@ is ExtensionMissing
                } else {
                    r matches Ok(s) && s@ == self@.extensions[i].settings
                }
            }),
    {
        let n: usize = self.extensions.len();
        let mut i: usize = 0;
        proof {
            lemma_find_entry_by_tag(self@.extensions, type_tag@);
        }
        while i < n
            invariant
                n == self@.extensions.len(),
                i <= n,
                forall|j: int|
                    0 <= j < i ==> #[trigger] self@.extensions[j].settings.type_tag != type_tag@,
            decreases n - i,
        {
            if str_eq(self.extensions[i].settings.type_tag.as_str(), type_tag) {
                proof {
                    assert(self@.extensions[i as int] == self.extensions@[i as int]@);
                    assert(self@.extensions[i as int].settings.type_tag == type_tag@);
                    lemma_find_entry_by_tag(self@.extensions, type_tag@);
                    assert(find_entry_by_tag(self@.extensions, type_tag@) == i);
                }
                return Ok(&self.extensions[i].settings);
            }
            i = i + 1;
        }
        proof {
            lemma_find_entry_by_tag(self@.extensions, type_tag@);
        }
        Err(SettingsError::MissingExtensionSettings)
    }

    /// Typed replacement by identifier: stores new field values for an
    /// existing sub-section, under the same failure taxonomy as retrieval.
    /// The replacement must carry the tag the sub-section was stored under.
    pub fn set_extension_settings(&mut self, identifier: &str, settings: ExtensionSettings) -> (r:
        Result<(), SettingsError>)
        ensures
            ({
                let i = find_entry(old(self)@.extensions, identifier@);
                if i == old(self)@.extensions.len() {
                    r matches Err(e) && e@ is ExtensionMissing && final(self)@ == old(self)@
                } else if old(self)@.extensions[i].settings.type_tag != settings@.type_tag {
                    r matches Err(e) && e@ is WrongExtensionType && final(self)@ == old(self)@
                } else {
                    r is Ok && final(self)@ == with_extensions(
                        old(self)@,
                        old(self)@.extensions.update(
                            i,
                            ExtensionEntryModel {
                                identifier: old(self)@.extensions[i].identifier,
                                settings: settings@,
                            },
                        ),
                    )
                }
            }),
    {
        let n: usize = self.extensions.len();
        let mut i: usize = 0;
        proof {
            lemma_find_entry(self@.extensions, identifier@);
        }
        while i < n
            invariant
                *self == *old(self),
                n == self@.extensions.len(),
                i <= n,
                forall|j: int|
                    0 <= j < i ==> #[trigger] self@.extensions[j].identifier != identifier@,
            decreases n - i,
        {
            if str_eq(self.extensions[i].identifier.as_str(), identifier) {
                proof {
                    assert(self@.extensions[i as int] == self.extensions@[i as int]@);
                    assert(self@.extensions[i as int].identifier == identifier@);
                    lemma_find_entry(self@.extensions, identifier@);
                    assert(find_entry(self@.extensions, identifier@) == i);
                }
                if !str_eq(
                    self.extensions[i].settings.type_tag.as_str(),
                    settings.type_tag.as_str(),
                ) {
                    return Err(SettingsError::ExtensionTypeMismatch);
                }
                let ident: String = self.extensions[i].identifier.clone();
                self.extensions[i] = ExtensionEntry { identifier: ident, settings };
                proof {
                    assert(final(self)@.extensions =~= old(self)@.extensions.update(
                        i as int,
                        final(self)@.extensions[i as int],
                    ));
                }
                return Ok(());
            }
            i = i + 1;
        }
        proof {
            lemma_find_entry(self@.extensions, identifier@);
        }
        Err(SettingsError::MissingExtensionSettings)
    }
}

/// The aggregate model with its extension map swapped out, leaving every
/// other field as it was.
pub open spec fn with_extensions(
    a: AppSettingsModel,
    extensions: Seq<ExtensionEntryModel>,
) -> AppSettingsModel {
    AppSettingsModel {
        telemetry_uuid: a.telemetry_uuid,
        telemetry_cron_schedule: a.telemetry_cron_schedule,
        oobe_step: a.oobe_step,
        storage_driver: a.storage_driver,
        mail_mode: a.mail_mode,
        captcha_provider: a.captcha_provider,
        app: a.app,
        webauthn: a.webauthn,
        server: a.server,
        activity: a.activity,
        extensions,
    }
}

} // verus!
