//! Rewrite personas: the built-in catalog, the user's persona configuration,
//! its normalization and the choice of a persona for one rewrite.

use vstd::prelude::*;

use crate::text::{
    concat, is_blank, owned, str_eq, trim, trim_ws, CharClass,
};

verus! {

/// The persona that normalization falls back to when nothing else is enabled.
pub const FALLBACK_SAFE_PERSONA_ID: &'static str = "clean-correction";

/// One persona of the configuration.
#[derive(Clone, Debug, PartialEq)]
pub struct PersonaConfigItem {
    pub id: String,
    pub name: String,
    pub description: String,
    pub name_key: String,
    pub description_key: String,
    pub system_prompt: String,
    pub built_in: bool,
    pub enabled: bool,
}

/// The mathematical value of a [`PersonaConfigItem`].
pub struct PersonaItemView {
    pub id: Seq<char>,
    pub name: Seq<char>,
    pub description: Seq<char>,
    pub name_key: Seq<char>,
    pub description_key: Seq<char>,
    pub system_prompt: Seq<char>,
    pub built_in: bool,
    pub enabled: bool,
}

impl View for PersonaConfigItem {
    type V = PersonaItemView;

    open spec fn view(&self) -> PersonaItemView {
        PersonaItemView {
            id: self.id@,
            name: self.name@,
            description: self.description@,
            name_key: self.name_key@,
            description_key: self.description_key@,
            system_prompt: self.system_prompt@,
            built_in: self.built_in,
            enabled: self.enabled,
        }
    }
}

/// The persona configuration: the personas, the default one for Safe Mode,
/// and the built-in personas that the user deleted.
#[derive(Clone, Debug, PartialEq)]
pub struct PersonaConfig {
    pub default_safe_persona_id: String,
    pub items: Vec<PersonaConfigItem>,
    pub deleted_built_in_persona_ids: Vec<String>,
}

/// The mathematical value of a [`PersonaConfig`].
pub struct PersonaConfigView {
    pub default_id: Seq<char>,
    pub items: Seq<PersonaItemView>,
    pub deleted: Seq<Seq<char>>,
}

pub open spec fn item_views(items: Seq<PersonaConfigItem>) -> Seq<PersonaItemView> {
    items.map_values(|p: PersonaConfigItem| p@)
}

pub open spec fn string_views(ids: Seq<String>) -> Seq<Seq<char>> {
    ids.map_values(|s: String| s@)
}

impl View for PersonaConfig {
    type V = PersonaConfigView;

    open spec fn view(&self) -> PersonaConfigView {
        PersonaConfigView {
            default_id: self.default_safe_persona_id@,
            items: item_views(self.items@),
            deleted: string_views(self.deleted_built_in_persona_ids@),
        }
    }
}

/// The name and instructions of the persona chosen for one rewrite.
#[derive(Clone, Debug)]
pub struct ResolvedPersona {
    pub name: String,
    pub system_prompt: String,
}

// ---------------------------------------------------------------------------
// The built-in catalog
// ---------------------------------------------------------------------------

pub open spec fn catalog_entry(
    id: Seq<char>,
    name: Seq<char>,
    description: Seq<char>,
    name_key: Seq<char>,
    description_key: Seq<char>,
    system_prompt: Seq<char>,
) -> PersonaItemView {
    PersonaItemView {
        id,
        name,
        description,
        name_key,
        description_key,
        system_prompt,
        built_in: true,
        enabled: true,
    }
}

/// The built-in personas, in catalog order.
pub open spec fn catalog() -> Seq<PersonaItemView> {
    seq![
        catalog_entry(
            "clean-correction"@,
            "纯净纠错"@,
            "不改变语气，只修正错别字、标点和基础排版"@,
            "persona.cleanCorrection.name"@,
            "persona.cleanCorrection.description"@,
            "Correct typos, punctuation, and formatting without changing the author's voice."@,
        ),
        catalog_entry(
            "translation-zh"@,
            "中文翻译"@,
            "把选中文字翻译成自然流畅的简体中文"@,
            "persona.translationZh.name"@,
            "persona.translationZh.description"@,
            "Translate the text into natural, fluent Simplified Chinese while keeping its meaning and formatting."@,
        ),
        catalog_entry(
            "vibecoding-requirements"@,
            "需求整理"@,
            "把想法整理成清晰、可执行的开发需求"@,
            "persona.vibecodingRequirements.name"@,
            "persona.vibecodingRequirements.description"@,
            "Rewrite the text as clear, structured, actionable requirements for an AI coding assistant."@,
        ),
    ]
}

/// The id of the catalog's default Safe Mode persona.
pub open spec fn catalog_default_id() -> Seq<char> {
    "clean-correction"@
}

pub open spec fn ids_of(items: Seq<PersonaItemView>) -> Seq<Seq<char>> {
    items.map_values(|p: PersonaItemView| p.id)
}

pub open spec fn catalog_ids() -> Seq<Seq<char>> {
    ids_of(catalog())
}

fn catalog_item(
    id: &str,
    name: &str,
    description: &str,
    name_key: &str,
    description_key: &str,
    system_prompt: &str,
) -> (p: PersonaConfigItem)
    ensures
        p@ == catalog_entry(id@, name@, description@, name_key@, description_key@, system_prompt@),
{
    PersonaConfigItem {
        id: owned(id),
        name: owned(name),
        description: owned(description),
        name_key: owned(name_key),
        description_key: owned(description_key),
        system_prompt: owned(system_prompt),
        built_in: true,
        enabled: true,
    }
}

/// The built-in personas.
pub fn persona_catalog() -> (v: Vec<PersonaConfigItem>)
    ensures
        item_views(v@) == catalog(),
{
    let mut v: Vec<PersonaConfigItem> = Vec::new();
    v.push(
        catalog_item(
            "clean-correction",
            "纯净纠错",
            "不改变语气，只修正错别字、标点和基础排版",
            "persona.cleanCorrection.name",
            "persona.cleanCorrection.description",
            "Correct typos, punctuation, and formatting without changing the author's voice.",
        ),
    );
    v.push(
        catalog_item(
            "translation-zh",
            "中文翻译",
            "把选中文字翻译成自然流畅的简体中文",
            "persona.translationZh.name",
            "persona.translationZh.description",
            "Translate the text into natural, fluent Simplified Chinese while keeping its meaning and formatting.",
        ),
    );
    v.push(
        catalog_item(
            "vibecoding-requirements",
            "需求整理",
            "把想法整理成清晰、可执行的开发需求",
            "persona.vibecodingRequirements.name",
            "persona.vibecodingRequirements.description",
            "Rewrite the text as clear, structured, actionable requirements for an AI coding assistant.",
        ),
    );
    assert(item_views(v@) =~= catalog());
    v
}

/// The id of the built-in default Safe Mode persona.
pub fn default_safe_persona_id() -> (id: &'static str)
    ensures
        id@ == catalog_default_id(),
{
    "clean-correction"
}

// ---------------------------------------------------------------------------
// What normalization does
// ---------------------------------------------------------------------------

/// A persona is usable when it has an id, a name (or name key), a description
/// (or description key) and a system prompt that are not blank.
pub open spec fn valid_persona(p: PersonaItemView) -> bool {
    &&& trim_ws(p.id).len() > 0
    &&& (trim_ws(p.name).len() > 0 || trim_ws(p.name_key).len() > 0)
    &&& (trim_ws(p.description).len() > 0 || trim_ws(p.description_key).len() > 0)
    &&& trim_ws(p.system_prompt).len() > 0
}

/// The deleted built-in ids that normalization keeps: each id trimmed, kept
/// only when it names a catalog persona, and kept once.
pub open spec fn deleted_ids_spec(ids: Seq<Seq<char>>) -> Seq<Seq<char>>
    decreases ids.len(),
{
    if ids.len() == 0 {
        Seq::<Seq<char>>::empty()
    } else {
        let prev = deleted_ids_spec(ids.drop_last());
        let t = trim_ws(ids.last());
        if catalog_ids().contains(t) && !prev.contains(t) {
            prev.push(t)
        } else {
            prev
        }
    }
}

/// The first usable persona of `items` whose id is `id`.
pub open spec fn first_valid_with_id(items: Seq<PersonaItemView>, id: Seq<char>) -> Option<
    PersonaItemView,
>
    decreases items.len(),
{
    if items.len() == 0 {
        None
    } else if valid_persona(items[0]) && items[0].id == id {
        Some(items[0])
    } else {
        first_valid_with_id(items.drop_first(), id)
    }
}

pub open spec fn with_enabled(p: PersonaItemView, enabled: bool) -> PersonaItemView {
    PersonaItemView { enabled, ..p }
}

pub open spec fn as_custom(p: PersonaItemView) -> PersonaItemView {
    PersonaItemView { built_in: false, ..p }
}

/// The built-in part of a merge over the first `n` catalog personas: each one
/// that is not deleted, as the catalog has it, with the `enabled` flag of the
/// first usable configured persona of the same id (if any).
pub open spec fn builtin_upto(items: Seq<PersonaItemView>, deleted: Seq<Seq<char>>, n: nat) -> Seq<
    PersonaItemView,
>
    decreases n,
{
    if n == 0 {
        Seq::<PersonaItemView>::empty()
    } else {
        let prev = builtin_upto(items, deleted, (n - 1) as nat);
        let b = catalog()[n - 1];
        if deleted.contains(b.id) {
            prev
        } else {
            match first_valid_with_id(items, b.id) {
                Some(p) => prev.push(with_enabled(b, p.enabled)),
                None => prev.push(b),
            }
        }
    }
}

/// The custom part of a merge over the first `n` configured personas: each
/// usable one whose id is not a catalog id and not taken by an earlier one,
/// marked as not built in.
pub open spec fn custom_upto(items: Seq<PersonaItemView>, n: nat) -> Seq<PersonaItemView>
    decreases n,
{
    if n == 0 {
        Seq::<PersonaItemView>::empty()
    } else {
        let prev = custom_upto(items, (n - 1) as nat);
        let p = items[n - 1];
        if valid_persona(p) && !catalog_ids().contains(p.id) && !ids_of(prev).contains(p.id) {
            prev.push(as_custom(p))
        } else {
            prev
        }
    }
}

/// The configured personas merged with the catalog.
pub open spec fn merge_spec(items: Seq<PersonaItemView>, deleted: Seq<Seq<char>>) -> Seq<
    PersonaItemView,
> {
    builtin_upto(items, deleted, catalog().len()) + custom_upto(items, items.len())
}

pub open spec fn has_enabled_spec(items: Seq<PersonaItemView>, id: Seq<char>) -> bool {
    exists|i: int| 0 <= i < items.len() && items[i].enabled && items[i].id == id
}

pub open spec fn any_enabled(items: Seq<PersonaItemView>) -> bool {
    exists|i: int| 0 <= i < items.len() && items[i].enabled
}

/// The index of the first persona with id `id`, or -1.
pub open spec fn index_of_id(items: Seq<PersonaItemView>, id: Seq<char>) -> int
    decreases items.len(),
{
    if items.len() == 0 {
        -1
    } else if items[0].id == id {
        0
    } else {
        let r = index_of_id(items.drop_first(), id);
        if r < 0 {
            -1
        } else {
            r + 1
        }
    }
}

/// When no persona is enabled, the fallback persona (or else the first one) is enabled.
pub open spec fn ensure_enabled_spec(items: Seq<PersonaItemView>) -> Seq<PersonaItemView> {
    if any_enabled(items) {
        items
    } else {
        let k = index_of_id(items, FALLBACK_SAFE_PERSONA_ID@);
        if k >= 0 {
            items.update(k, with_enabled(items[k], true))
        } else if items.len() > 0 {
            items.update(0, with_enabled(items[0], true))
        } else {
            items
        }
    }
}

/// The first enabled persona of `items`.
pub open spec fn first_enabled(items: Seq<PersonaItemView>) -> Option<PersonaItemView>
    decreases items.len(),
{
    if items.len() == 0 {
        None
    } else if items[0].enabled {
        Some(items[0])
    } else {
        first_enabled(items.drop_first())
    }
}

/// The first enabled persona of `items` whose id is `id`.
pub open spec fn first_enabled_with_id(items: Seq<PersonaItemView>, id: Seq<char>) -> Option<
    PersonaItemView,
>
    decreases items.len(),
{
    if items.len() == 0 {
        None
    } else if items[0].enabled && items[0].id == id {
        Some(items[0])
    } else {
        first_enabled_with_id(items.drop_first(), id)
    }
}

/// The default Safe Mode persona id after normalization: kept when it names an
/// enabled persona, else the catalog default when that is enabled, else the
/// first enabled persona, else the fallback id.
pub open spec fn default_id_spec(items: Seq<PersonaItemView>, configured: Seq<char>) -> Seq<char> {
    if has_enabled_spec(items, configured) {
        configured
    } else if has_enabled_spec(items, catalog_default_id()) {
        catalog_default_id()
    } else {
        match first_enabled(items) {
            Some(p) => p.id,
            None => FALLBACK_SAFE_PERSONA_ID@,
        }
    }
}

/// What `normalize_config` makes of a persona configuration.
pub open spec fn normalize_spec(c: PersonaConfigView) -> PersonaConfigView {
    let d0 = deleted_ids_spec(c.deleted);
    let m0 = merge_spec(c.items, d0);
    let d = if m0.len() == 0 { Seq::<Seq<char>>::empty() } else { d0 };
    let m = if m0.len() == 0 { merge_spec(Seq::empty(), d) } else { m0 };
    let items = ensure_enabled_spec(m);
    PersonaConfigView { default_id: default_id_spec(items, c.default_id), items, deleted: d }
}

pub struct ResolvedPersonaView {
    pub name: Seq<char>,
    pub system_prompt: Seq<char>,
}

impl View for ResolvedPersona {
    type V = ResolvedPersonaView;

    open spec fn view(&self) -> ResolvedPersonaView {
        ResolvedPersonaView { name: self.name@, system_prompt: self.system_prompt@ }
    }
}

/// The persona a rewrite uses: among the enabled personas of the normalized
/// configuration, the one with the requested id (or the default id when none
/// is requested), else the default one, else the first one.
pub open spec fn resolve_spec(c: PersonaConfigView, persona_id: Option<Seq<char>>) -> Option<
    ResolvedPersonaView,
> {
    let n = normalize_spec(c);
    let target = match persona_id {
        Some(t) => t,
        None => n.default_id,
    };
    let chosen = match first_enabled_with_id(n.items, target) {
        Some(p) => Some(p),
        None => match first_enabled_with_id(n.items, n.default_id) {
            Some(p) => Some(p),
            None => first_enabled(n.items),
        },
    };
    match chosen {
        Some(p) => Some(ResolvedPersonaView { name: p.name, system_prompt: p.system_prompt }),
        None => None,
    }
}

// ---------------------------------------------------------------------------
// Executable normalization
// ---------------------------------------------------------------------------

impl PersonaConfigItem {
    /// A copy of this persona.
    pub fn duplicate(&self) -> (r: Self)
        ensures
            r@ == self@,
    {
        PersonaConfigItem {
            id: self.id.clone(),
            name: self.name.clone(),
            description: self.description.clone(),
            name_key: self.name_key.clone(),
            description_key: self.description_key.clone(),
            system_prompt: self.system_prompt.clone(),
            built_in: self.built_in,
            enabled: self.enabled,
        }
    }
}

impl Default for PersonaConfigItem {
    fn default() -> (r: Self)
        ensures
            r@ == (PersonaItemView {
                id: Seq::empty(),
                name: Seq::empty(),
                description: Seq::empty(),
                name_key: Seq::empty(),
                description_key: Seq::empty(),
                system_prompt: Seq::empty(),
                built_in: false,
                enabled: true,
            }),
    {
        PersonaConfigItem {
            id: String::new(),
            name: String::new(),
            description: String::new(),
            name_key: String::new(),
            description_key: String::new(),
            system_prompt: String::new(),
            built_in: false,
            enabled: true,
        }
    }
}

impl Default for PersonaConfig {
    fn default() -> (r: Self)
        ensures
            r@ == (PersonaConfigView {
                default_id: catalog_default_id(),
                items: catalog(),
                deleted: Seq::empty(),
            }),
    {
        let deleted: Vec<String> = Vec::new();
        let r = PersonaConfig {
            default_safe_persona_id: owned(default_safe_persona_id()),
            items: persona_catalog(),
            deleted_built_in_persona_ids: deleted,
        };
        assert(string_views(r.deleted_built_in_persona_ids@) =~= Seq::<Seq<char>>::empty());
        r
    }
}

/// A copy of `v`.
pub fn clone_items(v: &Vec<PersonaConfigItem>) -> (r: Vec<PersonaConfigItem>)
    ensures
        item_views(r@) == item_views(v@),
{
    let mut r: Vec<PersonaConfigItem> = Vec::new();
    let mut i: usize = 0;
    while i < v.len()
        invariant
            i <= v@.len(),
            item_views(r@) == item_views(v@.take(i as int)),
        decreases v@.len() - i,
    {
        r.push(v[i].duplicate());
        assert(item_views(v@.take(i + 1)) =~= item_views(v@.take(i as int)).push(v@[i as int]@));
        assert(item_views(r@) =~= item_views(v@.take(i as int)).push(v@[i as int]@));
        i = i + 1;
    }
    assert(v@.take(v@.len() as int) =~= v@);
    r
}

/// A copy of `v`.
pub fn clone_strings(v: &Vec<String>) -> (r: Vec<String>)
    ensures
        string_views(r@) == string_views(v@),
{
    let mut r: Vec<String> = Vec::new();
    let mut i: usize = 0;
    while i < v.len()
        invariant
            i <= v@.len(),
            string_views(r@) == string_views(v@.take(i as int)),
        decreases v@.len() - i,
    {
        r.push(v[i].clone());
        assert(string_views(v@.take(i + 1)) =~= string_views(v@.take(i as int)).push(v@[i as int]@));
        assert(string_views(r@) =~= string_views(v@.take(i as int)).push(v@[i as int]@));
        i = i + 1;
    }
    assert(v@.take(v@.len() as int) =~= v@);
    r
}

impl PersonaConfig {
    /// A copy of this configuration.
    pub fn duplicate(&self) -> (r: Self)
        ensures
            r@ == self@,
    {
        PersonaConfig {
            default_safe_persona_id: self.default_safe_persona_id.clone(),
            items: clone_items(&self.items),
            deleted_built_in_persona_ids: clone_strings(&self.deleted_built_in_persona_ids),
        }
    }
}

/// Whether `p` has a non-blank id, name (or name key), description (or
/// description key) and system prompt.
pub fn is_valid_persona(p: &PersonaConfigItem) -> (r: bool)
    ensures
        r == valid_persona(p@),
{
    let has_name = !is_blank(p.name.as_str()) || !is_blank(p.name_key.as_str());
    let has_description = !is_blank(p.description.as_str()) || !is_blank(
        p.description_key.as_str(),
    );
    !is_blank(p.id.as_str()) && has_name && has_description && !is_blank(p.system_prompt.as_str())
}

/// Whether `v` holds a string equal to `s`.
pub fn contains_string(v: &Vec<String>, s: &str) -> (r: bool)
    ensures
        r == string_views(v@).contains(s@),
{
    let mut i: usize = 0;
    while i < v.len()
        invariant
            i <= v@.len(),
            forall|j: int| 0 <= j < i ==> v@[j]@ != s@,
        decreases v@.len() - i,
    {
        if str_eq(v[i].as_str(), s) {
            assert(string_views(v@)[i as int] == s@);
            return true;
        }
        i = i + 1;
    }
    assert forall|j: int| 0 <= j < string_views(v@).len() implies string_views(v@)[j] != s@ by {
        assert(string_views(v@)[j] == v@[j]@);
    }
    false
}

/// Whether `s` is the id of a catalog persona.
pub fn is_catalog_id(s: &str) -> (r: bool)
    ensures
        r == catalog_ids().contains(s@),
{
    let cat = persona_catalog();
    let mut i: usize = 0;
    while i < cat.len()
        invariant
            item_views(cat@) == catalog(),
            i <= cat@.len(),
            forall|j: int| 0 <= j < i ==> cat@[j].id@ != s@,
        decreases cat@.len() - i,
    {
        if str_eq(cat[i].id.as_str(), s) {
            assert(catalog_ids()[i as int] == item_views(cat@)[i as int].id);
            return true;
        }
        i = i + 1;
    }
    assert forall|j: int| 0 <= j < catalog_ids().len() implies catalog_ids()[j] != s@ by {
        assert(catalog_ids()[j] == item_views(cat@)[j].id);
    }
    false
}

/// The deleted built-in ids of `config`, trimmed, restricted to catalog ids and
/// without repetition.
pub fn normalized_deleted_built_in_ids(config: &PersonaConfig) -> (r: Vec<String>)
    ensures
        string_views(r@) == deleted_ids_spec(config@.deleted),
{
    let ids = &config.deleted_built_in_persona_ids;
    let mut deleted: Vec<String> = Vec::new();
    let mut i: usize = 0;
    while i < ids.len()
        invariant
            i <= ids@.len(),
            string_views(deleted@) == deleted_ids_spec(string_views(ids@.take(i as int))),
        decreases ids@.len() - i,
    {
        let t = trim(ids[i].as_str());
        proof {
            let pre = string_views(ids@.take(i + 1));
            assert(pre.drop_last() =~= string_views(ids@.take(i as int)));
            assert(pre.last() == ids@[i as int]@);
        }
        if is_catalog_id(t.as_str()) && !contains_string(&deleted, t.as_str()) {
            let ghost before = deleted@;
            deleted.push(t);
            assert(string_views(deleted@) =~= string_views(before).push(t@));
        }
        i = i + 1;
    }
    assert(ids@.take(ids@.len() as int) =~= ids@);
    deleted
}

/// The index of the first usable persona of `items` whose id is `id`.
pub fn find_valid_with_id(items: &Vec<PersonaConfigItem>, id: &str) -> (r: Option<usize>)
    ensures
        match first_valid_with_id(item_views(items@), id@) {
            Some(p) => r is Some && r->0 < items@.len() && items@[r->0 as int]@ == p,
            None => r is None,
        },
{
    let ghost all = item_views(items@);
    assert(all.skip(0) =~= all);
    let mut i: usize = 0;
    while i < items.len()
        invariant
            i <= items@.len(),
            all == item_views(items@),
            first_valid_with_id(all, id@) == first_valid_with_id(all.skip(i as int), id@),
        decreases items@.len() - i,
    {
        assert(all.skip(i as int)[0] == items@[i as int]@);
        if is_valid_persona(&items[i]) && str_eq(items[i].id.as_str(), id) {
            return Some(i);
        }
        assert(all.skip(i as int).drop_first() =~= all.skip(i + 1));
        i = i + 1;
    }
    assert(all.skip(i as int) =~= Seq::<PersonaItemView>::empty());
    None
}

/// The catalog persona `built_in` with the `enabled` flag of `configured`.
pub fn normalized_built_in_persona(
    configured: &PersonaConfigItem,
    built_in: &PersonaConfigItem,
) -> (r: PersonaConfigItem)
    ensures
        r@ == with_enabled(built_in@, configured.enabled),
{
    let mut persona = built_in.duplicate();
    persona.enabled = configured.enabled;
    persona
}

proof fn lemma_builtin_ids(items: Seq<PersonaItemView>, deleted: Seq<Seq<char>>, n: nat)
    requires
        n <= catalog().len(),
    ensures
        forall|j: int|
            0 <= j < builtin_upto(items, deleted, n).len() ==> catalog_ids().contains(
                #[trigger] builtin_upto(items, deleted, n)[j].id,
            ),
    decreases n,
{
    if n > 0 {
        lemma_builtin_ids(items, deleted, (n - 1) as nat);
        let prev = builtin_upto(items, deleted, (n - 1) as nat);
        let cur = builtin_upto(items, deleted, n);
        let b = catalog()[n - 1];
        assert(catalog_ids().len() == catalog().len());
        assert(catalog_ids()[n - 1] == b.id);
        assert forall|j: int| 0 <= j < cur.len() implies catalog_ids().contains(#[trigger] cur[j].id) by {
            if j < prev.len() {
                assert(cur[j] == prev[j]);
                assert(catalog_ids().contains(prev[j].id));
            } else {
                assert(cur[j].id == b.id);
            }
        }
    }
}

/// Whether some persona of `items` has id `id`.
fn has_id(items: &Vec<PersonaConfigItem>, id: &String) -> (r: bool)
    ensures
        r == ids_of(item_views(items@)).contains(id@),
{
    let mut i: usize = 0;
    while i < items.len()
        invariant
            i <= items@.len(),
            forall|j: int| 0 <= j < i ==> items@[j].id@ != id@,
        decreases items@.len() - i,
    {
        if items[i].id == *id {
            assert(ids_of(item_views(items@))[i as int] == id@);
            return true;
        }
        i = i + 1;
    }
    assert forall|j: int| 0 <= j < ids_of(item_views(items@)).len() implies ids_of(
        item_views(items@),
    )[j] != id@ by {
        assert(ids_of(item_views(items@))[j] == items@[j].id@);
    }
    false
}

/// The configured personas merged with the catalog: the catalog personas that
/// are not deleted (keeping only the user's `enabled` flag), then the usable
/// custom personas with distinct, non-catalog ids.
pub fn merge_built_in_personas(
    items: &Vec<PersonaConfigItem>,
    deleted_built_in_persona_ids: &Vec<String>,
) -> (r: Vec<PersonaConfigItem>)
    ensures
        item_views(r@) == merge_spec(item_views(items@), string_views(deleted_built_in_persona_ids@)),
{
    let ghost iv = item_views(items@);
    let ghost dv = string_views(deleted_built_in_persona_ids@);
    let cat = persona_catalog();
    let mut merged: Vec<PersonaConfigItem> = Vec::new();
    let mut k: usize = 0;
    while k < cat.len()
        invariant
            item_views(cat@) == catalog(),
            iv == item_views(items@),
            dv == string_views(deleted_built_in_persona_ids@),
            k <= cat@.len(),
            item_views(merged@) == builtin_upto(iv, dv, k as nat),
        decreases cat@.len() - k,
    {
        let built_in = &cat[k];
        assert(catalog()[k as int] == built_in@);
        if !contains_string(deleted_built_in_persona_ids, built_in.id.as_str()) {
            let ghost before = merged@;
            match find_valid_with_id(items, built_in.id.as_str()) {
                Some(j) => {
                    merged.push(normalized_built_in_persona(&items[j], built_in));
                },
                None => {
                    merged.push(built_in.duplicate());
                },
            }
            assert(item_views(merged@) =~= item_views(before).push(merged@.last()@));
        }
        k = k + 1;
    }
    let ghost builtins = item_views(merged@);
    proof {
        lemma_builtin_ids(iv, dv, catalog().len());
    }
    let mut j: usize = 0;
    while j < items.len()
        invariant
            iv == item_views(items@),
            dv == string_views(deleted_built_in_persona_ids@),
            builtins == builtin_upto(iv, dv, catalog().len()),
            forall|m: int|
                0 <= m < builtins.len() ==> catalog_ids().contains(#[trigger] builtins[m].id),
            j <= items@.len(),
            item_views(merged@) == builtins + custom_upto(iv, j as nat),
        decreases items@.len() - j,
    {
        let persona = &items[j];
        assert(iv[j as int] == persona@);
        let ghost prev = custom_upto(iv, j as nat);
        let valid = is_valid_persona(persona);
        let catalog_id = is_catalog_id(persona.id.as_str());
        if valid && !catalog_id {
            let seen = has_id(&merged, &persona.id);
            proof {
                let all_ids = ids_of(item_views(merged@));
                assert(all_ids =~= ids_of(builtins) + ids_of(prev));
                if all_ids.contains(persona@.id) {
                    let m = choose|m: int| 0 <= m < all_ids.len() && all_ids[m] == persona@.id;
                    if m < ids_of(builtins).len() {
                        assert(builtins[m].id == persona@.id);
                        assert(catalog_ids().contains(builtins[m].id));
                        assert(false);
                    } else {
                        assert(ids_of(prev)[m - ids_of(builtins).len()] == persona@.id);
                    }
                }
                if ids_of(prev).contains(persona@.id) {
                    let m = choose|m: int| 0 <= m < ids_of(prev).len() && ids_of(prev)[m] == persona@.id;
                    assert(all_ids[m + ids_of(builtins).len()] == persona@.id);
                }
            }
            if !seen {
                let ghost before = merged@;
                let mut custom_persona = persona.duplicate();
                custom_persona.built_in = false;
                merged.push(custom_persona);
                assert(item_views(merged@) =~= item_views(before).push(as_custom(persona@)));
            }
        }
        j = j + 1;
    }
    assert(iv.len() == items@.len());
    merged
}

/// Whether some enabled persona of `items` has id `persona_id`.
pub fn has_enabled_persona(items: &Vec<PersonaConfigItem>, persona_id: &str) -> (r: bool)
    ensures
        r == has_enabled_spec(item_views(items@), persona_id@),
{
    let ghost iv = item_views(items@);
    let mut i: usize = 0;
    while i < items.len()
        invariant
            i <= items@.len(),
            iv == item_views(items@),
            forall|j: int| 0 <= j < i ==> !(iv[j].enabled && iv[j].id == persona_id@),
        decreases items@.len() - i,
    {
        assert(iv[i as int] == items@[i as int]@);
        if items[i].enabled && str_eq(items[i].id.as_str(), persona_id) {
            return true;
        }
        i = i + 1;
    }
    false
}

proof fn lemma_index_of_id(items: Seq<PersonaItemView>, id: Seq<char>)
    ensures
        -1 <= index_of_id(items, id) < items.len(),
        index_of_id(items, id) >= 0 ==> items[index_of_id(items, id)].id == id,
        index_of_id(items, id) >= 0 ==> forall|j: int|
            0 <= j < index_of_id(items, id) ==> items[j].id != id,
        index_of_id(items, id) < 0 ==> forall|j: int| 0 <= j < items.len() ==> items[j].id != id,
    decreases items.len(),
{
    if items.len() > 0 {
        lemma_index_of_id(items.drop_first(), id);
        assert forall|j: int| 1 <= j < items.len() implies items[j] == items.drop_first()[j - 1] by {}
    }
}

/// When no persona of `items` is enabled, enables the fallback persona, or the
/// first one when the fallback is absent.
pub fn ensure_enabled_persona(items: &mut Vec<PersonaConfigItem>)
    ensures
        item_views(final(items)@) == ensure_enabled_spec(item_views(old(items)@)),
{
    let ghost iv = item_views(items@);
    let mut i: usize = 0;
    while i < items.len()
        invariant
            i <= items@.len(),
            iv == item_views(items@),
            forall|j: int| 0 <= j < i ==> !iv[j].enabled,
        decreases items@.len() - i,
    {
        assert(iv[i as int] == items@[i as int]@);
        if items[i].enabled {
            return;
        }
        i = i + 1;
    }
    proof {
        lemma_index_of_id(iv, FALLBACK_SAFE_PERSONA_ID@);
    }
    let mut idx: usize = 0;
    while idx < items.len() && !str_eq(items[idx].id.as_str(), FALLBACK_SAFE_PERSONA_ID)
        invariant
            idx <= items@.len(),
            iv == item_views(items@),
            forall|j: int| 0 <= j < idx ==> iv[j].id != FALLBACK_SAFE_PERSONA_ID@,
        decreases items@.len() - idx,
    {
        assert(iv[idx as int] == items@[idx as int]@);
        idx = idx + 1;
    }
    let found = idx < items.len();
    if found {
        assert(iv[idx as int] == items@[idx as int]@);
    }
    if !found {
        if items.len() == 0 {
            return;
        }
        idx = 0;
    }
    proof {
        if found {
            assert(index_of_id(iv, FALLBACK_SAFE_PERSONA_ID@) == idx);
        } else {
            assert(index_of_id(iv, FALLBACK_SAFE_PERSONA_ID@) < 0);
        }
    }
    let mut p = items[idx].duplicate();
    p.enabled = true;
    items.set(idx, p);
    assert(item_views(items@) =~= iv.update(idx as int, with_enabled(iv[idx as int], true)));
}

/// The id of the first enabled persona of `items`.
pub fn first_enabled_index(items: &Vec<PersonaConfigItem>) -> (r: Option<usize>)
    ensures
        match first_enabled(item_views(items@)) {
            Some(p) => r is Some && r->0 < items@.len() && items@[r->0 as int]@ == p,
            None => r is None,
        },
{
    let ghost all = item_views(items@);
    assert(all.skip(0) =~= all);
    let mut i: usize = 0;
    while i < items.len()
        invariant
            i <= items@.len(),
            all == item_views(items@),
            first_enabled(all) == first_enabled(all.skip(i as int)),
        decreases items@.len() - i,
    {
        assert(all.skip(i as int)[0] == items@[i as int]@);
        if items[i].enabled {
            return Some(i);
        }
        assert(all.skip(i as int).drop_first() =~= all.skip(i + 1));
        i = i + 1;
    }
    assert(all.skip(i as int) =~= Seq::<PersonaItemView>::empty());
    None
}

/// The index of the first enabled persona of `items` whose id is `id`.
pub fn first_enabled_with_id_index(items: &Vec<PersonaConfigItem>, id: &str) -> (r: Option<usize>)
    ensures
        match first_enabled_with_id(item_views(items@), id@) {
            Some(p) => r is Some && r->0 < items@.len() && items@[r->0 as int]@ == p,
            None => r is None,
        },
{
    let ghost all = item_views(items@);
    assert(all.skip(0) =~= all);
    let mut i: usize = 0;
    while i < items.len()
        invariant
            i <= items@.len(),
            all == item_views(items@),
            first_enabled_with_id(all, id@) == first_enabled_with_id(all.skip(i as int), id@),
        decreases items@.len() - i,
    {
        assert(all.skip(i as int)[0] == items@[i as int]@);
        if items[i].enabled && str_eq(items[i].id.as_str(), id) {
            return Some(i);
        }
        assert(all.skip(i as int).drop_first() =~= all.skip(i + 1));
        i = i + 1;
    }
    assert(all.skip(i as int) =~= Seq::<PersonaItemView>::empty());
    None
}

/// The configuration with deleted ids cleaned, the catalog merged in, at least
/// one persona enabled and the default persona pointing at an enabled one.
pub fn normalize_config(config: &PersonaConfig) -> (r: PersonaConfig)
    ensures
        r@ == normalize_spec(config@),
{
    let mut deleted = normalized_deleted_built_in_ids(config);
    let mut items = merge_built_in_personas(&config.items, &deleted);
    if items.len() == 0 {
        deleted = Vec::new();
        let no_items: Vec<PersonaConfigItem> = Vec::new();
        items = merge_built_in_personas(&no_items, &deleted);
        assert(item_views(no_items@) =~= Seq::<PersonaItemView>::empty());
        assert(string_views(deleted@) =~= Seq::<Seq<char>>::empty());
    }
    ensure_enabled_persona(&mut items);
    let mut default_id = config.default_safe_persona_id.clone();
    if !has_enabled_persona(&items, default_id.as_str()) {
        default_id = owned(default_safe_persona_id());
        if !has_enabled_persona(&items, default_id.as_str()) {
            default_id = match first_enabled_index(&items) {
                Some(i) => items[i].id.clone(),
                None => owned(FALLBACK_SAFE_PERSONA_ID),
            };
        }
    }
    PersonaConfig {
        default_safe_persona_id: default_id,
        items,
        deleted_built_in_persona_ids: deleted,
    }
}

/// The persona that a rewrite with the requested id (or the default persona
/// when none is requested) uses.
pub fn resolve_persona(config: &PersonaConfig, persona_id: Option<&str>) -> (r: Option<
    ResolvedPersona,
>)
    ensures
        match r {
            Some(p) => resolve_spec(config@, match persona_id {
                Some(t) => Some(t@),
                None => None,
            }) == Some(p@),
            None => resolve_spec(config@, match persona_id {
                Some(t) => Some(t@),
                None => None,
            }) is None,
        },
{
    let normalized = normalize_config(config);
    let target_id: &str = match persona_id {
        Some(t) => t,
        None => normalized.default_safe_persona_id.as_str(),
    };
    let chosen = match first_enabled_with_id_index(&normalized.items, target_id) {
        Some(i) => Some(i),
        None => match first_enabled_with_id_index(
            &normalized.items,
            normalized.default_safe_persona_id.as_str(),
        ) {
            Some(i) => Some(i),
            None => first_enabled_index(&normalized.items),
        },
    };
    match chosen {
        Some(i) => Some(
            ResolvedPersona {
                name: normalized.items[i].name.clone(),
                system_prompt: normalized.items[i].system_prompt.clone(),
            },
        ),
        None => None,
    }
}

} // verus!
