//! Properties that every normalized persona configuration has.

use vstd::prelude::*;

use crate::persona::{
    any_enabled, as_custom, builtin_upto, catalog, catalog_default_id, catalog_ids, custom_upto,
    default_id_spec, deleted_ids_spec, ensure_enabled_spec, first_enabled, first_enabled_with_id,
    first_valid_with_id, resolve_spec, ResolvedPersonaView,
    has_enabled_spec, ids_of, index_of_id, merge_spec, normalize_spec, valid_persona, with_enabled,
    PersonaConfigView, PersonaItemView, FALLBACK_SAFE_PERSONA_ID,
};
use crate::text::{is_white_space, trim_ws};

verus! {

/// No two personas of `items` share an id.
pub open spec fn distinct_ids(items: Seq<PersonaItemView>) -> bool {
    forall|i: int, j: int| 0 <= i < j < items.len() ==> items[i].id != items[j].id
}

/// Facts about the built-in catalog.
pub proof fn lemma_catalog_facts()
    ensures
        catalog().len() == 3,
        distinct_ids(catalog()),
        catalog()[0].id == FALLBACK_SAFE_PERSONA_ID@,
        catalog()[0].id == catalog_default_id(),
        forall|i: int| 0 <= i < catalog().len() ==> (#[trigger] catalog()[i]).built_in,
{
    reveal_strlit("clean-correction");
    reveal_strlit("translation-zh");
    reveal_strlit("vibecoding-requirements");
    assert("clean-correction"@.len() == 16);
    assert("translation-zh"@.len() == 14);
    assert("vibecoding-requirements"@.len() == 23);
    assert forall|i: int, j: int| 0 <= i < j < catalog().len() implies catalog()[i].id
        != catalog()[j].id by {
        assert(catalog()[i].id.len() != catalog()[j].id.len());
    }
}

proof fn lemma_builtin_shape(items: Seq<PersonaItemView>, deleted: Seq<Seq<char>>, n: nat)
    requires
        n <= catalog().len(),
    ensures
        ({
            let b = builtin_upto(items, deleted, n);
            &&& b.len() <= n
            &&& forall|j: int|
                0 <= j < b.len() ==> exists|k: int|
                    0 <= k < n && #[trigger] b[j] == with_enabled(catalog()[k], b[j].enabled)
                        && !deleted.contains(catalog()[k].id)
        }),
        deleted.len() == 0 ==> builtin_upto(items, deleted, n).len() == n,
    decreases n,
{
    lemma_catalog_facts();
    if n > 0 {
        lemma_builtin_shape(items, deleted, (n - 1) as nat);
        let prev = builtin_upto(items, deleted, (n - 1) as nat);
        let cur = builtin_upto(items, deleted, n);
        let b = catalog()[n - 1];
        assert forall|j: int| 0 <= j < cur.len() implies exists|k: int|
            0 <= k < n && #[trigger] cur[j] == with_enabled(catalog()[k], cur[j].enabled)
                && !deleted.contains(catalog()[k].id) by {
            if j < prev.len() {
                assert(cur[j] == prev[j]);
                let k = choose|k: int|
                    0 <= k < n - 1 && #[trigger] prev[j] == with_enabled(
                        catalog()[k],
                        prev[j].enabled,
                    ) && !deleted.contains(catalog()[k].id);
                assert(cur[j] == with_enabled(catalog()[k], cur[j].enabled));
            } else {
                assert(cur[j] == with_enabled(catalog()[n - 1], cur[j].enabled));
            }
        }
        if deleted.len() == 0 {
            assert(!deleted.contains(b.id));
        }
    }
}

proof fn lemma_builtin_distinct(items: Seq<PersonaItemView>, deleted: Seq<Seq<char>>, n: nat)
    requires
        n <= catalog().len(),
    ensures
        distinct_ids(builtin_upto(items, deleted, n)),
        forall|j: int|
            0 <= j < builtin_upto(items, deleted, n).len() ==> exists|k: int|
                0 <= k < n && (#[trigger] builtin_upto(items, deleted, n)[j]).id == catalog()[k].id,
    decreases n,
{
    lemma_catalog_facts();
    if n > 0 {
        lemma_builtin_distinct(items, deleted, (n - 1) as nat);
        let prev = builtin_upto(items, deleted, (n - 1) as nat);
        let cur = builtin_upto(items, deleted, n);
        assert forall|j: int| 0 <= j < cur.len() implies exists|k: int|
            0 <= k < n && (#[trigger] cur[j]).id == catalog()[k].id by {
            if j < prev.len() {
                assert(cur[j] == prev[j]);
                let k = choose|k: int| 0 <= k < n - 1 && (#[trigger] prev[j]).id == catalog()[k].id;
            } else {
                assert(cur[j].id == catalog()[n - 1].id);
            }
        }
        assert forall|i: int, j: int| 0 <= i < j < cur.len() implies cur[i].id != cur[j].id by {
            if j < prev.len() {
                assert(cur[i] == prev[i] && cur[j] == prev[j]);
            } else {
                assert(cur[i] == prev[i]);
                let k = choose|k: int| 0 <= k < n - 1 && (#[trigger] prev[i]).id == catalog()[k].id;
                assert(cur[j].id == catalog()[n - 1].id);
            }
        }
    }
}

proof fn lemma_custom_shape(items: Seq<PersonaItemView>, n: nat)
    requires
        n <= items.len(),
    ensures
        distinct_ids(custom_upto(items, n)),
        forall|j: int|
            0 <= j < custom_upto(items, n).len() ==> {
                let p = #[trigger] custom_upto(items, n)[j];
                &&& !catalog_ids().contains(p.id)
                &&& valid_persona(p)
                &&& !p.built_in
            },
    decreases n,
{
    if n > 0 {
        lemma_custom_shape(items, (n - 1) as nat);
        let prev = custom_upto(items, (n - 1) as nat);
        let cur = custom_upto(items, n);
        let p = items[n - 1];
        if valid_persona(p) && !catalog_ids().contains(p.id) && !ids_of(prev).contains(p.id) {
            assert forall|i: int, j: int| 0 <= i < j < cur.len() implies cur[i].id != cur[j].id by {
                if j < prev.len() {
                    assert(cur[i] == prev[i] && cur[j] == prev[j]);
                } else {
                    assert(cur[i] == prev[i]);
                    assert(ids_of(prev)[i] == prev[i].id);
                }
            }
            assert forall|j: int| 0 <= j < cur.len() implies {
                let q = #[trigger] cur[j];
                &&& !catalog_ids().contains(q.id)
                &&& valid_persona(q)
                &&& !q.built_in
            } by {
                if j < prev.len() {
                    assert(cur[j] == prev[j]);
                }
            }
        }
    }
}

/// The merged personas have distinct ids; those with a catalog id are catalog
/// personas (differing at most in `enabled`) that are not deleted; the others
/// are usable custom personas.
pub proof fn lemma_merge_shape(items: Seq<PersonaItemView>, deleted: Seq<Seq<char>>)
    ensures
        distinct_ids(merge_spec(items, deleted)),
        forall|j: int|
            0 <= j < merge_spec(items, deleted).len() ==> {
                let p = #[trigger] merge_spec(items, deleted)[j];
                ||| exists|k: int|
                    0 <= k < catalog().len() && p == with_enabled(catalog()[k], p.enabled)
                        && !deleted.contains(catalog()[k].id)
                ||| (!catalog_ids().contains(p.id) && valid_persona(p) && !p.built_in)
            },
        deleted.len() == 0 ==> merge_spec(items, deleted).len() >= catalog().len(),
{
    lemma_catalog_facts();
    let b = builtin_upto(items, deleted, catalog().len());
    let c = custom_upto(items, items.len());
    lemma_builtin_shape(items, deleted, catalog().len());
    lemma_builtin_distinct(items, deleted, catalog().len());
    lemma_custom_shape(items, items.len());
    let m = merge_spec(items, deleted);
    assert forall|j: int| 0 <= j < m.len() implies {
        let p = #[trigger] m[j];
        ||| exists|k: int|
            0 <= k < catalog().len() && p == with_enabled(catalog()[k], p.enabled)
                && !deleted.contains(catalog()[k].id)
        ||| (!catalog_ids().contains(p.id) && valid_persona(p) && !p.built_in)
    } by {
        if j < b.len() {
            assert(m[j] == b[j]);
        } else {
            assert(m[j] == c[j - b.len()]);
        }
    }
    assert forall|i: int, j: int| 0 <= i < j < m.len() implies m[i].id != m[j].id by {
        if j < b.len() {
            assert(m[i] == b[i] && m[j] == b[j]);
        } else if i >= b.len() {
            assert(m[i] == c[i - b.len()] && m[j] == c[j - b.len()]);
        } else {
            assert(m[i] == b[i] && m[j] == c[j - b.len()]);
            let k = choose|k: int| 0 <= k < catalog().len() && (#[trigger] b[i]).id == catalog()[k].id;
            assert(catalog_ids()[k] == catalog()[k].id);
        }
    }
}

proof fn lemma_first_enabled(items: Seq<PersonaItemView>)
    ensures
        any_enabled(items) ==> first_enabled(items) is Some,
        first_enabled(items) matches Some(p) ==> p.enabled && has_enabled_spec(items, p.id),
    decreases items.len(),
{
    if items.len() > 0 {
        lemma_first_enabled(items.drop_first());
        if any_enabled(items) && !items[0].enabled {
            let i = choose|i: int| 0 <= i < items.len() && items[i].enabled;
            assert(items.drop_first()[i - 1].enabled);
        }
        if let Some(p) = first_enabled(items.drop_first()) {
            if !items[0].enabled {
                let i = choose|i: int|
                    0 <= i < items.drop_first().len() && items.drop_first()[i].enabled
                        && items.drop_first()[i].id == p.id;
                assert(items[i + 1] == items.drop_first()[i]);
            }
        }
    }
}

proof fn lemma_ensure_enabled(items: Seq<PersonaItemView>)
    ensures
        ensure_enabled_spec(items).len() == items.len(),
        forall|j: int|
            0 <= j < items.len() ==> ensure_enabled_spec(items)[j] == with_enabled(
                items[j],
                ensure_enabled_spec(items)[j].enabled,
            ),
        items.len() > 0 ==> any_enabled(ensure_enabled_spec(items)),
        any_enabled(items) ==> ensure_enabled_spec(items) == items,
{
    let k = index_of_id(items, FALLBACK_SAFE_PERSONA_ID@);
    lemma_index_of_id_bounds(items, FALLBACK_SAFE_PERSONA_ID@);
    let e = ensure_enabled_spec(items);
    if items.len() > 0 && !any_enabled(items) {
        if k >= 0 {
            assert(e[k].enabled);
        } else {
            assert(e[0].enabled);
        }
    }
}

proof fn lemma_index_of_id_bounds(items: Seq<PersonaItemView>, id: Seq<char>)
    ensures
        -1 <= index_of_id(items, id) < items.len(),
    decreases items.len(),
{
    if items.len() > 0 {
        lemma_index_of_id_bounds(items.drop_first(), id);
    }
}

/// A normalized persona configuration has at least one persona, one of them
/// enabled; its default Safe Mode persona is an enabled one; no two personas
/// share an id; every built-in persona shows the catalog's name, description
/// and prompt (only its `enabled` flag follows the user); every custom persona
/// is usable; every persona of the catalog that is not listed as deleted is
/// present; the deleted ids are catalog ids, listed once, and no persona
/// carries one.
pub proof fn law_normalized_config_is_well_formed(c: PersonaConfigView)
    ensures
        ({
            let n = normalize_spec(c);
            &&& n.items.len() > 0
            &&& any_enabled(n.items)
            &&& has_enabled_spec(n.items, n.default_id)
            &&& distinct_ids(n.items)
            &&& forall|j: int|
                0 <= j < n.items.len() ==> {
                    let p = #[trigger] n.items[j];
                    ||| exists|k: int|
                        0 <= k < catalog().len() && p == with_enabled(catalog()[k], p.enabled)
                            && !n.deleted.contains(catalog()[k].id)
                    ||| (!catalog_ids().contains(p.id) && valid_persona(p) && !p.built_in)
                }
            &&& forall|k: int|
                0 <= k < catalog().len() && !n.deleted.contains(#[trigger] catalog()[k].id)
                    ==> ids_of(n.items).contains(catalog()[k].id)
            &&& forall|i: int|
                0 <= i < n.deleted.len() ==> catalog_ids().contains(#[trigger] n.deleted[i])
            &&& forall|i: int, j: int| 0 <= i < j < n.deleted.len() ==> n.deleted[i] != n.deleted[j]
        }),
{
    lemma_catalog_facts();
    let d0 = deleted_ids_spec(c.deleted);
    lemma_deleted_shape(c.deleted);
    let m0 = merge_spec(c.items, d0);
    let d = if m0.len() == 0 { Seq::<Seq<char>>::empty() } else { d0 };
    let m = if m0.len() == 0 { merge_spec(Seq::empty(), d) } else { m0 };
    lemma_merge_shape(c.items, d0);
    lemma_merge_shape(Seq::empty(), Seq::<Seq<char>>::empty());
    lemma_merge_complete(c.items, d);
    lemma_merge_complete(Seq::empty(), d);
    let items = ensure_enabled_spec(m);
    lemma_ensure_enabled(m);
    let n = normalize_spec(c);
    assert(n.items == items && n.deleted == d);
    assert(m.len() > 0);
    lemma_first_enabled(items);
    if !has_enabled_spec(items, c.default_id) && !has_enabled_spec(items, catalog_default_id()) {
        let p = first_enabled(items)->0;
    }
    assert forall|i: int, j: int| 0 <= i < j < items.len() implies items[i].id != items[j].id by {
        assert(items[i].id == m[i].id && items[j].id == m[j].id);
    }
    assert forall|j: int| 0 <= j < items.len() implies {
        let p = #[trigger] items[j];
        ||| exists|k: int|
            0 <= k < catalog().len() && p == with_enabled(catalog()[k], p.enabled)
                && !d.contains(catalog()[k].id)
        ||| (!catalog_ids().contains(p.id) && valid_persona(p) && !p.built_in)
    } by {
        let q = m[j];
        assert(items[j] == with_enabled(q, items[j].enabled));
        if exists|k: int|
            0 <= k < catalog().len() && q == with_enabled(catalog()[k], q.enabled)
                && !d.contains(catalog()[k].id) {
            let k = choose|k: int|
                0 <= k < catalog().len() && q == with_enabled(catalog()[k], q.enabled)
                    && !d.contains(catalog()[k].id);
            assert(items[j] == with_enabled(catalog()[k], items[j].enabled));
        }
    }
    assert forall|k: int|
        0 <= k < catalog().len() && !d.contains(#[trigger] catalog()[k].id) implies ids_of(
        items,
    ).contains(catalog()[k].id) by {
        let j = choose|j: int| 0 <= j < m.len() && m[j].id == catalog()[k].id;
        assert(ids_of(items)[j] == items[j].id);
        assert(items[j].id == m[j].id);
    }
}

proof fn lemma_deleted_shape(ids: Seq<Seq<char>>)
    ensures
        forall|i: int|
            0 <= i < deleted_ids_spec(ids).len() ==> catalog_ids().contains(
                #[trigger] deleted_ids_spec(ids)[i],
            ),
        forall|i: int, j: int|
            0 <= i < j < deleted_ids_spec(ids).len() ==> deleted_ids_spec(ids)[i]
                != deleted_ids_spec(ids)[j],
    decreases ids.len(),
{
    if ids.len() > 0 {
        lemma_deleted_shape(ids.drop_last());
        let prev = deleted_ids_spec(ids.drop_last());
        let cur = deleted_ids_spec(ids);
        assert forall|i: int| 0 <= i < cur.len() implies catalog_ids().contains(#[trigger] cur[i]) by {
            if i < prev.len() {
                assert(cur[i] == prev[i]);
            }
        }
        assert forall|i: int, j: int| 0 <= i < j < cur.len() implies cur[i] != cur[j] by {
            if j < prev.len() {
                assert(cur[i] == prev[i] && cur[j] == prev[j]);
            } else {
                assert(cur[i] == prev[i]);
            }
        }
    }
}

/// Every catalog persona that is not deleted appears in the merge.
proof fn lemma_merge_complete(items: Seq<PersonaItemView>, deleted: Seq<Seq<char>>)
    ensures
        forall|k: int|
            0 <= k < catalog().len() && !deleted.contains(#[trigger] catalog()[k].id)
                ==> exists|j: int|
                0 <= j < merge_spec(items, deleted).len() && merge_spec(items, deleted)[j].id
                    == catalog()[k].id,
{
    lemma_builtin_complete(items, deleted, catalog().len());
    let b = builtin_upto(items, deleted, catalog().len());
    let m = merge_spec(items, deleted);
    assert forall|k: int|
        0 <= k < catalog().len() && !deleted.contains(#[trigger] catalog()[k].id) implies exists|
        j: int,
    | 0 <= j < m.len() && m[j].id == catalog()[k].id by {
        let j = choose|j: int| 0 <= j < b.len() && b[j].id == catalog()[k].id;
        assert(m[j] == b[j]);
    }
}

proof fn lemma_builtin_complete(items: Seq<PersonaItemView>, deleted: Seq<Seq<char>>, n: nat)
    requires
        n <= catalog().len(),
    ensures
        forall|k: int|
            0 <= k < n && !deleted.contains(#[trigger] catalog()[k].id) ==> exists|j: int|
                0 <= j < builtin_upto(items, deleted, n).len() && builtin_upto(items, deleted, n)[j].id
                    == catalog()[k].id,
    decreases n,
{
    if n > 0 {
        lemma_builtin_complete(items, deleted, (n - 1) as nat);
        let prev = builtin_upto(items, deleted, (n - 1) as nat);
        let cur = builtin_upto(items, deleted, n);
        assert forall|k: int| 0 <= k < n && !deleted.contains(#[trigger] catalog()[k].id) implies exists|
            j: int,
        | 0 <= j < cur.len() && cur[j].id == catalog()[k].id by {
            if k < n - 1 {
                let j = choose|j: int| 0 <= j < prev.len() && prev[j].id == catalog()[k].id;
                assert(cur[j] == prev[j]);
            } else {
                assert(cur[cur.len() - 1].id == catalog()[k].id);
            }
        }
    }
}

proof fn lemma_trim_fixed(s: Seq<char>)
    requires
        s.len() > 0,
        !is_white_space(s[0]),
        !is_white_space(s.last()),
    ensures
        trim_ws(s) == s,
{
}

/// Every catalog persona is usable, and its id has no surrounding whitespace.
proof fn lemma_catalog_usable()
    ensures
        forall|k: int|
            0 <= k < catalog().len() ==> valid_persona(#[trigger] catalog()[k]) && trim_ws(
                catalog()[k].id,
            ) == catalog()[k].id,
{
    lemma_catalog_facts();
    reveal_strlit("clean-correction");
    reveal_strlit("translation-zh");
    reveal_strlit("vibecoding-requirements");
    reveal_strlit("persona.cleanCorrection.name");
    reveal_strlit("persona.translationZh.name");
    reveal_strlit("persona.vibecodingRequirements.name");
    reveal_strlit("persona.cleanCorrection.description");
    reveal_strlit("persona.translationZh.description");
    reveal_strlit("persona.vibecodingRequirements.description");
    reveal_strlit("Correct typos, punctuation, and formatting without changing the author's voice.");
    reveal_strlit(
        "Translate the text into natural, fluent Simplified Chinese while keeping its meaning and formatting.",
    );
    reveal_strlit(
        "Rewrite the text as clear, structured, actionable requirements for an AI coding assistant.",
    );
    assert forall|k: int| 0 <= k < catalog().len() implies valid_persona(
        #[trigger] catalog()[k],
    ) && trim_ws(catalog()[k].id) == catalog()[k].id by {
        let p = catalog()[k];
        lemma_trim_fixed(p.id);
        lemma_trim_fixed(p.name_key);
        lemma_trim_fixed(p.description_key);
        lemma_trim_fixed(p.system_prompt);
    }
}

/// A list of distinct catalog ids is already a normalized deleted list.
proof fn lemma_deleted_fixed(s: Seq<Seq<char>>)
    requires
        forall|i: int| 0 <= i < s.len() ==> catalog_ids().contains(#[trigger] s[i]),
        forall|i: int, j: int| 0 <= i < j < s.len() ==> s[i] != s[j],
    ensures
        deleted_ids_spec(s) == s,
    decreases s.len(),
{
    if s.len() > 0 {
        let prev = s.drop_last();
        lemma_deleted_fixed(prev);
        lemma_catalog_usable();
        let last = s.last();
        assert(catalog_ids().contains(s[s.len() - 1]));
        let k = choose|k: int| 0 <= k < catalog_ids().len() && catalog_ids()[k] == last;
        assert(catalog_ids()[k] == catalog()[k].id);
        assert(trim_ws(last) == last);
        if prev.contains(last) {
            let i = choose|i: int| 0 <= i < prev.len() && prev[i] == last;
            assert(s[i] == s[s.len() - 1]);
        }
        assert(prev.push(last) =~= s);
    }
}

proof fn lemma_first_valid_at(y: Seq<PersonaItemView>, id: Seq<char>, p: int)
    requires
        0 <= p < y.len(),
        valid_persona(y[p]),
        y[p].id == id,
        forall|i: int| 0 <= i < p ==> (#[trigger] y[i]).id != id,
    ensures
        first_valid_with_id(y, id) == Some(y[p]),
    decreases p,
{
    if p > 0 {
        assert forall|i: int| 0 <= i < p - 1 implies (#[trigger] y.drop_first()[i]).id != id by {
            assert(y.drop_first()[i] == y[i + 1]);
        }
        lemma_first_valid_at(y.drop_first(), id, p - 1);
    }
}

/// Merging personas whose built-in part already has the shape a merge gives
/// yields that part unchanged.
proof fn lemma_builtin_fixed(
    x: Seq<PersonaItemView>,
    y: Seq<PersonaItemView>,
    d: Seq<Seq<char>>,
    n: nat,
)
    requires
        n <= catalog().len(),
        builtin_upto(x, d, n).len() <= y.len(),
        forall|j: int|
            0 <= j < builtin_upto(x, d, n).len() ==> y[j] == with_enabled(
                #[trigger] builtin_upto(x, d, n)[j],
                y[j].enabled,
            ),
    ensures
        builtin_upto(y, d, n) == y.take(builtin_upto(x, d, n).len() as int),
    decreases n,
{
    if n == 0 {
        assert(y.take(0) =~= Seq::<PersonaItemView>::empty());
    } else {
        let prev_x = builtin_upto(x, d, (n - 1) as nat);
        let cur_x = builtin_upto(x, d, n);
        assert forall|j: int| 0 <= j < prev_x.len() implies y[j] == with_enabled(
            #[trigger] prev_x[j],
            y[j].enabled,
        ) by {
            assert(cur_x[j] == prev_x[j]);
        }
        lemma_builtin_fixed(x, y, d, (n - 1) as nat);
        let b = catalog()[n - 1];
        if !d.contains(b.id) {
            let pos = prev_x.len() as int;
            lemma_catalog_facts();
            lemma_catalog_usable();
            lemma_builtin_distinct(x, d, (n - 1) as nat);
            assert(cur_x[pos].id == b.id);
            assert(y[pos] == with_enabled(b, y[pos].enabled));
            assert forall|i: int| 0 <= i < pos implies (#[trigger] y[i]).id != b.id by {
                assert(y[i].id == prev_x[i].id);
                let k = choose|k: int|
                    0 <= k < n - 1 && (#[trigger] builtin_upto(x, d, (n - 1) as nat)[i]).id
                        == catalog()[k].id;
            }
            lemma_first_valid_at(y, b.id, pos);
            assert(y.take(pos).push(y[pos]) =~= y.take(pos + 1));
        }
    }
}

/// The custom part of a merge over personas whose tail is already made of
/// distinct usable custom personas is that tail.
proof fn lemma_custom_fixed(y: Seq<PersonaItemView>, blen: int, n: nat)
    requires
        0 <= blen <= y.len(),
        n <= y.len(),
        forall|i: int| 0 <= i < blen ==> catalog_ids().contains((#[trigger] y[i]).id),
        forall|i: int|
            blen <= i < y.len() ==> valid_persona(#[trigger] y[i]) && !catalog_ids().contains(
                y[i].id,
            ) && !y[i].built_in,
        forall|i: int, j: int| blen <= i < j < y.len() ==> y[i].id != y[j].id,
    ensures
        custom_upto(y, n) == (if n <= blen {
            Seq::<PersonaItemView>::empty()
        } else {
            y.subrange(blen, n as int)
        }),
    decreases n,
{
    if n > 0 {
        lemma_custom_fixed(y, blen, (n - 1) as nat);
        let prev = custom_upto(y, (n - 1) as nat);
        let p = y[n - 1];
        if n - 1 >= blen {
            if ids_of(prev).contains(p.id) {
                let i = choose|i: int| 0 <= i < ids_of(prev).len() && ids_of(prev)[i] == p.id;
                assert(prev[i] == y[blen + i]);
            }
            assert(as_custom(p) == p);
            assert(prev.push(p) =~= y.subrange(blen, n as int));
        }
    }
}

/// Normalizing a normalized persona configuration changes nothing: what is
/// saved after a normalization is read back and kept as it is.
pub proof fn law_normalize_is_idempotent(c: PersonaConfigView)
    ensures
        normalize_spec(normalize_spec(c)) == normalize_spec(c),
{
    let n = normalize_spec(c);
    law_normalized_config_is_well_formed(c);
    lemma_catalog_facts();
    let d0 = deleted_ids_spec(c.deleted);
    let m0 = merge_spec(c.items, d0);
    let d = if m0.len() == 0 { Seq::<Seq<char>>::empty() } else { d0 };
    let x = if m0.len() == 0 { Seq::<PersonaItemView>::empty() } else { c.items };
    let m = merge_spec(x, d);
    assert(n.deleted == d);
    assert(n.items == ensure_enabled_spec(m));
    let items = n.items;
    // the deleted list is already normalized
    assert forall|i: int| 0 <= i < d.len() implies catalog_ids().contains(#[trigger] d[i]) by {}
    lemma_deleted_fixed(d);
    // the items are already merged
    let b0 = builtin_upto(x, d, catalog().len());
    let c0 = custom_upto(x, x.len());
    lemma_ensure_enabled(m);
    lemma_builtin_distinct(x, d, catalog().len());
    lemma_custom_shape(x, x.len());
    assert forall|j: int| 0 <= j < b0.len() implies items[j] == with_enabled(
        #[trigger] b0[j],
        items[j].enabled,
    ) by {
        assert(m[j] == b0[j]);
    }
    lemma_builtin_fixed(x, items, d, catalog().len());
    let blen = b0.len() as int;
    assert forall|i: int| 0 <= i < blen implies catalog_ids().contains((#[trigger] items[i]).id) by {
        assert(m[i] == b0[i]);
        let k = choose|k: int|
            0 <= k < catalog().len() && (#[trigger] builtin_upto(x, d, catalog().len())[i]).id
                == catalog()[k].id;
        assert(catalog_ids()[k] == catalog()[k].id);
    }
    assert forall|i: int| blen <= i < items.len() implies valid_persona(#[trigger] items[i])
        && !catalog_ids().contains(items[i].id) && !items[i].built_in by {
        assert(m[i] == c0[i - blen]);
    }
    lemma_custom_fixed(items, blen, items.len());
    assert(merge_spec(items, d) =~= items);
    // nothing else changes
    assert(ensure_enabled_spec(items) == items);
    assert(default_id_spec(items, n.default_id) == n.default_id);
}

proof fn lemma_first_enabled_with_id_at(items: Seq<PersonaItemView>, id: Seq<char>, j: int)
    requires
        0 <= j < items.len(),
        items[j].enabled,
        items[j].id == id,
        distinct_ids(items),
    ensures
        first_enabled_with_id(items, id) == Some(items[j]),
    decreases j,
{
    if j > 0 {
        assert(items[0].id != items[j].id);
        let rest = items.drop_first();
        assert forall|a: int, b: int| 0 <= a < b < rest.len() implies rest[a].id != rest[b].id by {
            assert(rest[a] == items[a + 1] && rest[b] == items[b + 1]);
        }
        lemma_first_enabled_with_id_at(rest, id, j - 1);
    }
}

proof fn lemma_first_enabled_with_id_some(items: Seq<PersonaItemView>, id: Seq<char>)
    requires
        has_enabled_spec(items, id),
    ensures
        first_enabled_with_id(items, id) is Some,
    decreases items.len(),
{
    if !(items[0].enabled && items[0].id == id) {
        let i = choose|i: int| 0 <= i < items.len() && items[i].enabled && items[i].id == id;
        assert(items.drop_first()[i - 1] == items[i]);
        lemma_first_enabled_with_id_some(items.drop_first(), id);
    }
}

/// Resolving a persona always succeeds; an enabled persona of the normalized
/// configuration resolves to itself, and no request (or a request for a
/// persona that is not enabled) resolves to the default Safe Mode persona.
pub proof fn law_resolution(c: PersonaConfigView, requested: Option<Seq<char>>)
    ensures
        resolve_spec(c, requested) is Some,
        ({
            let n = normalize_spec(c);
            let target = match requested {
                Some(t) => t,
                None => n.default_id,
            };
            forall|j: int|
                0 <= j < n.items.len() && (#[trigger] n.items[j]).enabled && n.items[j].id
                    == target ==> resolve_spec(c, requested) == Some(
                    ResolvedPersonaView {
                        name: n.items[j].name,
                        system_prompt: n.items[j].system_prompt,
                    },
                )
        }),
        ({
            let n = normalize_spec(c);
            let target = match requested {
                Some(t) => t,
                None => n.default_id,
            };
            !has_enabled_spec(n.items, target) ==> forall|j: int|
                0 <= j < n.items.len() && (#[trigger] n.items[j]).enabled && n.items[j].id
                    == n.default_id ==> resolve_spec(c, requested) == Some(
                    ResolvedPersonaView {
                        name: n.items[j].name,
                        system_prompt: n.items[j].system_prompt,
                    },
                )
        }),
{
    let n = normalize_spec(c);
    law_normalized_config_is_well_formed(c);
    let target = match requested {
        Some(t) => t,
        None => n.default_id,
    };
    lemma_first_enabled_with_id_some(n.items, n.default_id);
    assert forall|j: int|
        0 <= j < n.items.len() && (#[trigger] n.items[j]).enabled && n.items[j].id
            == target implies resolve_spec(c, requested) == Some(
        ResolvedPersonaView { name: n.items[j].name, system_prompt: n.items[j].system_prompt },
    ) by {
        lemma_first_enabled_with_id_at(n.items, target, j);
    }
    if !has_enabled_spec(n.items, target) {
        assert(first_enabled_with_id(n.items, target) is None) by {
            lemma_first_enabled_with_id_none(n.items, target);
        }
        assert forall|j: int|
            0 <= j < n.items.len() && (#[trigger] n.items[j]).enabled && n.items[j].id
                == n.default_id implies resolve_spec(c, requested) == Some(
            ResolvedPersonaView { name: n.items[j].name, system_prompt: n.items[j].system_prompt },
        ) by {
            lemma_first_enabled_with_id_at(n.items, n.default_id, j);
        }
    }
}

proof fn lemma_first_enabled_with_id_none(items: Seq<PersonaItemView>, id: Seq<char>)
    requires
        !has_enabled_spec(items, id),
    ensures
        first_enabled_with_id(items, id) is None,
    decreases items.len(),
{
    if items.len() > 0 {
        assert(!(items[0].enabled && items[0].id == id));
        assert forall|i: int| 0 <= i < items.drop_first().len() implies !(
        items.drop_first()[i].enabled && items.drop_first()[i].id == id) by {
            assert(items.drop_first()[i] == items[i + 1]);
        }
        lemma_first_enabled_with_id_none(items.drop_first(), id);
    }
}

proof fn lemma_custom_origin(items: Seq<PersonaItemView>, n: nat)
    requires
        n <= items.len(),
    ensures
        forall|j: int|
            0 <= j < custom_upto(items, n).len() ==> exists|i: int|
                0 <= i < n && valid_persona(items[i]) && #[trigger] custom_upto(items, n)[j]
                    == as_custom(items[i]),
    decreases n,
{
    if n > 0 {
        lemma_custom_origin(items, (n - 1) as nat);
        let prev = custom_upto(items, (n - 1) as nat);
        let cur = custom_upto(items, n);
        assert forall|j: int| 0 <= j < cur.len() implies exists|i: int|
            0 <= i < n && valid_persona(items[i]) && #[trigger] cur[j] == as_custom(items[i]) by {
            if j < prev.len() {
                assert(cur[j] == prev[j]);
                let i = choose|i: int|
                    0 <= i < n - 1 && valid_persona(items[i]) && #[trigger] custom_upto(
                        items,
                        (n - 1) as nat,
                    )[j] == as_custom(items[i]);
            } else {
                assert(cur[j] == as_custom(items[n - 1]));
            }
        }
    }
}

/// Every persona of a normalized configuration whose id is not a catalog id
/// comes from a usable persona of the input: the same persona, marked custom,
/// with its `enabled` flag possibly switched on when nothing else is enabled.
pub proof fn law_custom_personas_come_from_usable_input(c: PersonaConfigView)
    ensures
        ({
            let n = normalize_spec(c);
            forall|j: int|
                0 <= j < n.items.len() && !catalog_ids().contains(#[trigger] n.items[j].id)
                    ==> exists|i: int|
                    0 <= i < c.items.len() && valid_persona(c.items[i]) && n.items[j]
                        == with_enabled(as_custom(c.items[i]), n.items[j].enabled)
        }),
{
    let n = normalize_spec(c);
    lemma_catalog_facts();
    let d0 = deleted_ids_spec(c.deleted);
    let m0 = merge_spec(c.items, d0);
    let d = if m0.len() == 0 { Seq::<Seq<char>>::empty() } else { d0 };
    let x = if m0.len() == 0 { Seq::<PersonaItemView>::empty() } else { c.items };
    let m = merge_spec(x, d);
    assert(n.items == ensure_enabled_spec(m));
    let b0 = builtin_upto(x, d, catalog().len());
    let c0 = custom_upto(x, x.len());
    lemma_ensure_enabled(m);
    lemma_builtin_distinct(x, d, catalog().len());
    lemma_custom_origin(x, x.len());
    assert forall|j: int|
        0 <= j < n.items.len() && !catalog_ids().contains(#[trigger] n.items[j].id) implies exists|
        i: int,
    | 0 <= i < c.items.len() && valid_persona(c.items[i]) && n.items[j] == with_enabled(
        as_custom(c.items[i]),
        n.items[j].enabled,
    ) by {
        assert(n.items[j] == with_enabled(m[j], n.items[j].enabled));
        if j < b0.len() {
            assert(m[j] == b0[j]);
            let k = choose|k: int|
                0 <= k < catalog().len() && (#[trigger] builtin_upto(x, d, catalog().len())[j]).id
                    == catalog()[k].id;
            assert(catalog_ids()[k] == catalog()[k].id);
        } else {
            assert(m[j] == c0[j - b0.len()]);
            let i = choose|i: int|
                0 <= i < x.len() && valid_persona(x[i]) && #[trigger] custom_upto(x, x.len())[j
                    - b0.len()] == as_custom(x[i]);
            assert(x.len() > 0);
            assert(x == c.items);
        }
    }
}

/// Normalization keeps the configured default Safe Mode persona whenever a
/// persona with that id is enabled among the normalized personas, whichever
/// persona it is (built-in or custom). Only when none is does the default move:
/// to the catalog default when that one is enabled.
pub proof fn law_enabled_default_is_kept(c: PersonaConfigView)
    ensures
        ({
            let n = normalize_spec(c);
            &&& (exists|i: int| 0 <= i < n.items.len() && (#[trigger] n.items[i]).enabled
                && n.items[i].id == c.default_id) ==> n.default_id == c.default_id
            &&& (!exists|i: int| 0 <= i < n.items.len() && (#[trigger] n.items[i]).enabled
                && n.items[i].id == c.default_id) && (exists|i: int| 0 <= i < n.items.len()
                && (#[trigger] n.items[i]).enabled && n.items[i].id == catalog_default_id())
                ==> n.default_id == catalog_default_id()
        }),
{
}

} // verus!
