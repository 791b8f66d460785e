//! Container name aliases.
//!
//! A caller may address a container by a logical name. An alias table maps
//! logical names to the physical names used against the backend. A name may
//! carry the marker `alias_` in front, which is stripped before the lookup;
//! a name the table does not know passes through.

use vstd::hash_map::StringHashMap;
use vstd::prelude::*;

verus! {

/// Marker in front of a logical container name, and in front of the keys of
/// link configuration values that define an alias.
pub const ALIAS_PREFIX: &'static str = "alias_";

/// The characters of [`ALIAS_PREFIX`].
pub open spec fn alias_prefix() -> Seq<char> {
    seq!['a', 'l', 'i', 'a', 's', '_']
}

/// The name that is looked up: `name` without the marker, if it carries one.
pub open spec fn strip_marker(name: Seq<char>) -> Seq<char> {
    if alias_prefix().is_prefix_of(name) {
        name.skip(alias_prefix().len() as int)
    } else {
        name
    }
}

/// The physical name that `name` stands for under `table`.
pub open spec fn resolve(table: Map<Seq<char>, Seq<char>>, name: Seq<char>) -> Seq<char> {
    let candidate = strip_marker(name);
    if table.contains_key(candidate) {
        table[candidate]
    } else {
        candidate
    }
}

/// `ALIAS_PREFIX` holds exactly the characters of `alias_prefix()`.
pub proof fn lemma_alias_prefix_chars()
    ensures
        ALIAS_PREFIX@ == alias_prefix(),
{
    reveal_strlit("alias_");
    assert(ALIAS_PREFIX@ =~= alias_prefix());
}

/// `str::strip_prefix` with a string pattern: when `s` starts with `prefix`
/// the rest of `s` behind it comes back, otherwise `None`.
#[verifier::external_body]
pub(crate) fn strip_prefix<'a>(s: &'a str, prefix: &str) -> (rest: Option<&'a str>)
    ensures
        match rest {
            Some(r) => s@ == prefix@ + r@,
            None => !prefix@.is_prefix_of(s@),
        },
{
    s.strip_prefix(prefix)
}

/// Splits the alias marker off `name`: `Some` of what follows the marker, or
/// `None` when `name` does not start with it.
pub fn strip_alias_prefix<'a>(name: &'a str) -> (rest: Option<&'a str>)
    ensures
        alias_prefix().is_prefix_of(name@) <==> rest is Some,
        rest matches Some(r) ==> r@ == name@.skip(alias_prefix().len() as int),
        rest matches Some(r) ==> r@ == strip_marker(name@),
        rest is None ==> strip_marker(name@) == name@,
{
    let rest = strip_prefix(name, ALIAS_PREFIX);
    proof {
        lemma_alias_prefix_chars();
        match rest {
            Some(r) => {
                assert(name@ == alias_prefix() + r@);
                assert(alias_prefix().is_prefix_of(name@)) by {
                    assert(name@.subrange(0, alias_prefix().len() as int) =~= alias_prefix());
                }
                assert(r@ =~= name@.skip(alias_prefix().len() as int));
            },
            None => {},
        }
    }
    rest
}

/// A mapping from logical to physical container names. Keys are unique and
/// compared character by character.
pub struct AliasTable {
    entries: StringHashMap<String>,
}

impl View for AliasTable {
    type V = Map<Seq<char>, Seq<char>>;

    closed spec fn view(&self) -> Map<Seq<char>, Seq<char>> {
        Map::new(|k: Seq<char>| self.entries@.contains_key(k), |k: Seq<char>| self.entries@[k]@)
    }
}

impl AliasTable {
    /// A table without entries.
    pub fn new() -> (table: Self)
        ensures
            table@ == Map::<Seq<char>, Seq<char>>::empty(),
    {
        let table = AliasTable { entries: StringHashMap::new() };
        assert(table@ =~= Map::<Seq<char>, Seq<char>>::empty());
        table
    }

    /// Maps `name` to `target`, replacing what `name` was mapped to before.
    pub fn insert(&mut self, name: String, target: String)
        ensures
            final(self)@ == old(self)@.insert(name@, target@),
    {
        let ghost before = self@;
        let ghost key = name@;
        let ghost value = target@;
        self.entries.insert(name, target);
        assert(self@ =~= before.insert(key, value));
    }

    /// The physical name `name` is mapped to, if the table knows `name`.
    pub fn get<'a>(&'a self, name: &str) -> (target: Option<&'a str>)
        ensures
            self@.contains_key(name@) <==> target is Some,
            target matches Some(t) ==> t@ == self@[name@],
    {
        match self.entries.get(name) {
            Some(t) => Some(t.as_str()),
            None => None,
        }
    }

    /// Resolves a caller-supplied container name: strips the marker if there
    /// is one, then maps the rest through the table, or returns it as it is
    /// when the table does not know it.
    pub fn resolve<'n, 's: 'n>(&'s self, name: &'n str) -> (physical: &'n str)
        ensures
            physical@ == resolve(self@, name@),
    {
        let candidate = match strip_alias_prefix(name) {
            Some(rest) => rest,
            None => name,
        };
        match self.get(candidate) {
            Some(target) => target,
            None => candidate,
        }
    }

    /// Takes over `entries` as they are, in order: a later entry replaces an
    /// earlier one of the same name.
    pub fn extend(&mut self, entries: &Vec<(String, String)>)
        ensures
            final(self)@ == with_entries(old(self)@, pairs(entries@)),
    {
        let mut i: usize = 0;
        while i < entries.len()
            invariant
                i <= entries.len(),
                self@ == with_entries(old(self)@, pairs(entries@).take(i as int)),
            decreases entries.len() - i,
        {
            proof {
                let upto = pairs(entries@).take(i + 1);
                assert(upto.drop_last() =~= pairs(entries@).take(i as int));
                assert(upto.last() == (entries@[i as int].0@, entries@[i as int].1@));
            }
            let entry = &entries[i];
            self.insert(entry.0.clone(), entry.1.clone());
            i += 1;
        }
        assert(pairs(entries@).take(i as int) =~= pairs(entries@));
    }

    /// Takes over the aliases among the configuration values of a link, in
    /// order. A value defines an alias when its key starts with the marker;
    /// one whose name or target is empty is skipped. See [`defines_alias`].
    pub fn extend_from_link(&mut self, values: &Vec<(String, String)>)
        ensures
            final(self)@ == with_link_values(old(self)@, pairs(values@)),
    {
        let mut i: usize = 0;
        while i < values.len()
            invariant
                i <= values.len(),
                self@ == with_link_values(old(self)@, pairs(values@).take(i as int)),
            decreases values.len() - i,
        {
            proof {
                let upto = pairs(values@).take(i + 1);
                assert(upto.drop_last() =~= pairs(values@).take(i as int));
                assert(upto.last() == (values@[i as int].0@, values@[i as int].1@));
            }
            let entry = &values[i];
            match strip_alias_prefix(entry.0.as_str()) {
                Some(alias) => {
                    if !(alias.is_empty() || entry.1.as_str().is_empty()) {
                        let name = alias.to_owned();
                        self.insert(name, entry.1.clone());
                    }
                },
                None => {},
            }
            i += 1;
        }
        assert(pairs(values@).take(i as int) =~= pairs(values@));
    }
}

/// The texts of a list of pairs of strings.
pub open spec fn pairs(entries: Seq<(String, String)>) -> Seq<(Seq<char>, Seq<char>)> {
    entries.map_values(|entry: (String, String)| (entry.0@, entry.1@))
}

/// `table` after `entries` have been put into it one after the other.
pub open spec fn with_entries(
    table: Map<Seq<char>, Seq<char>>,
    entries: Seq<(Seq<char>, Seq<char>)>,
) -> Map<Seq<char>, Seq<char>>
    decreases entries.len(),
{
    if entries.len() == 0 {
        table
    } else {
        with_entries(table, entries.drop_last()).insert(entries.last().0, entries.last().1)
    }
}

/// Whether the configuration value `value` under `key` defines an alias: the
/// key is the marker followed by a name that is not empty, and the value, the
/// target, is not empty either.
pub open spec fn defines_alias(key: Seq<char>, value: Seq<char>) -> bool {
    &&& alias_prefix().is_prefix_of(key)
    &&& key.len() > alias_prefix().len()
    &&& value.len() > 0
}

/// The name of the alias that the configuration key `key` defines.
pub open spec fn alias_name(key: Seq<char>) -> Seq<char> {
    key.skip(alias_prefix().len() as int)
}

/// `table` after the configuration values of a link have been applied to it
/// one after the other: each that defines an alias is put into the table,
/// every other one is passed over.
pub open spec fn with_link_values(
    table: Map<Seq<char>, Seq<char>>,
    values: Seq<(Seq<char>, Seq<char>)>,
) -> Map<Seq<char>, Seq<char>>
    decreases values.len(),
{
    if values.len() == 0 {
        table
    } else {
        let before = with_link_values(table, values.drop_last());
        let (key, value) = values.last();
        if defines_alias(key, value) {
            before.insert(alias_name(key), value)
        } else {
            before
        }
    }
}

/// A name that the table does not hold and that does not carry the marker
/// stands for itself. So does a name with the marker where the table maps the
/// rest of it back to the whole name.
pub proof fn lemma_physical_name_unchanged(table: Map<Seq<char>, Seq<char>>, name: Seq<char>)
    requires
        !table.contains_key(name),
        !alias_prefix().is_prefix_of(name) || (table.contains_key(strip_marker(name))
            && table[strip_marker(name)] == name),
    ensures
        resolve(table, name) == name,
{
}

/// A name with the marker that the table does not hold, and whose rest the
/// table does not hold either, stands for the rest: the marker is stripped
/// and nothing else is done to it.
pub proof fn lemma_unknown_alias_loses_marker(table: Map<Seq<char>, Seq<char>>, name: Seq<char>)
    requires
        !table.contains_key(alias_name(name)),
        alias_prefix().is_prefix_of(name),
    ensures
        resolve(table, name) == alias_name(name),
        resolve(table, name).len() + alias_prefix().len() == name.len(),
{
}

/// What a name stands for is a function of the table and the name: resolving
/// the same name twice under the same table gives the same physical name.
pub proof fn lemma_resolved_twice_alike(
    first_table: Map<Seq<char>, Seq<char>>,
    second_table: Map<Seq<char>, Seq<char>>,
    name: Seq<char>,
)
    requires
        first_table == second_table,
    ensures
        resolve(first_table, name) == resolve(second_table, name),
{
}

/// The marker is optional: a name without it stands for the same container
/// with the marker in front.
pub proof fn lemma_marker_is_optional(table: Map<Seq<char>, Seq<char>>, name: Seq<char>)
    requires
        !alias_prefix().is_prefix_of(name),
    ensures
        resolve(table, alias_prefix() + name) == resolve(table, name),
{
    let marked = alias_prefix() + name;
    assert(marked.subrange(0, alias_prefix().len() as int) =~= alias_prefix());
    assert(alias_prefix().is_prefix_of(marked));
    assert(marked.skip(alias_prefix().len() as int) =~= name);
}

/// Of the configuration values of a link that define the same alias, the
/// last one counts: the table maps the alias to its target, whatever the
/// table held before.
pub proof fn lemma_last_definition_counts(
    table: Map<Seq<char>, Seq<char>>,
    values: Seq<(Seq<char>, Seq<char>)>,
    i: int,
)
    requires
        0 <= i < values.len(),
        defines_alias(values[i].0, values[i].1),
        forall|j: int|
            i < j < values.len() ==> !(#[trigger] defines_alias(values[j].0, values[j].1)
                && alias_name(values[j].0) == alias_name(values[i].0)),
    ensures
        with_link_values(table, values).contains_key(alias_name(values[i].0)),
        with_link_values(table, values)[alias_name(values[i].0)] == values[i].1,
    decreases values.len(),
{
    if i == values.len() - 1 {
    } else {
        let before = values.drop_last();
        assert(before[i] == values[i]);
        assert forall|j: int| i < j < before.len() implies !(#[trigger] defines_alias(
            before[j].0,
            before[j].1,
        ) && alias_name(before[j].0) == alias_name(before[i].0)) by {
            assert(before[j] == values[j]);
        }
        lemma_last_definition_counts(table, before, i);
        let last = values.len() - 1;
        assert(!(defines_alias(values[last].0, values[last].1) && alias_name(values[last].0)
            == alias_name(values[i].0)));
    }
}

/// A name that no configuration value of the link defines is in the table
/// exactly if it was there before, with the target it had.
pub proof fn lemma_undefined_name_kept(
    table: Map<Seq<char>, Seq<char>>,
    values: Seq<(Seq<char>, Seq<char>)>,
    name: Seq<char>,
)
    requires
        forall|j: int|
            0 <= j < values.len() ==> !(#[trigger] defines_alias(values[j].0, values[j].1)
                && alias_name(values[j].0) == name),
    ensures
        with_link_values(table, values).contains_key(name) == table.contains_key(name),
        table.contains_key(name) ==> with_link_values(table, values)[name] == table[name],
    decreases values.len(),
{
    if values.len() == 0 {
    } else {
        let before = values.drop_last();
        assert forall|j: int| 0 <= j < before.len() implies !(#[trigger] defines_alias(
            before[j].0,
            before[j].1,
        ) && alias_name(before[j].0) == name) by {
            assert(before[j] == values[j]);
        }
        lemma_undefined_name_kept(table, before, name);
        let last = values.len() - 1;
        assert(!(defines_alias(values[last].0, values[last].1) && alias_name(values[last].0)
            == name));
    }
}

/// A configuration value whose key does not carry the marker, or names no
/// alias behind it, or whose target is empty, changes nothing.
pub proof fn lemma_malformed_value_skipped(
    table: Map<Seq<char>, Seq<char>>,
    values: Seq<(Seq<char>, Seq<char>)>,
    key: Seq<char>,
    value: Seq<char>,
)
    requires
        !alias_prefix().is_prefix_of(key) || key.len() == alias_prefix().len() || value.len() == 0,
    ensures
        with_link_values(table, values.push((key, value))) == with_link_values(table, values),
{
    let extended = values.push((key, value));
    assert(extended.drop_last() =~= values);
    assert(extended.last() == (key, value));
    if alias_prefix().is_prefix_of(key) {
        assert(key.len() >= alias_prefix().len());
    }
}

/// Whether no two of `values` have the same key, as it is with the entries
/// of a map.
pub open spec fn keys_distinct(values: Seq<(Seq<char>, Seq<char>)>) -> bool {
    forall|i: int, j: int|
        0 <= i < values.len() && 0 <= j < values.len() && i != j ==> (#[trigger] values[i]).0
            != (#[trigger] values[j]).0
}

/// Two keys that name the same alias are the same key.
pub proof fn lemma_alias_names_tell_keys_apart(first: Seq<char>, second: Seq<char>)
    requires
        alias_prefix().is_prefix_of(first),
        alias_prefix().is_prefix_of(second),
        alias_name(first) == alias_name(second),
    ensures
        first == second,
{
    let n = alias_prefix().len() as int;
    assert(first =~= first.subrange(0, n) + first.skip(n));
    assert(second =~= second.subrange(0, n) + second.skip(n));
}

/// With distinct keys, the table maps the alias of each defining value to
/// that value's target.
pub proof fn lemma_definition_counts(
    table: Map<Seq<char>, Seq<char>>,
    values: Seq<(Seq<char>, Seq<char>)>,
    i: int,
)
    requires
        keys_distinct(values),
        0 <= i < values.len(),
        defines_alias(values[i].0, values[i].1),
    ensures
        with_link_values(table, values).contains_key(alias_name(values[i].0)),
        with_link_values(table, values)[alias_name(values[i].0)] == values[i].1,
{
    assert forall|j: int| i < j < values.len() implies !(#[trigger] defines_alias(
        values[j].0,
        values[j].1,
    ) && alias_name(values[j].0) == alias_name(values[i].0)) by {
        if defines_alias(values[j].0, values[j].1) && alias_name(values[j].0) == alias_name(
            values[i].0,
        ) {
            lemma_alias_names_tell_keys_apart(values[i].0, values[j].0);
            assert(values[i].0 != values[j].0);
        }
    }
    lemma_last_definition_counts(table, values, i);
}

/// With distinct keys, two listings of the same configuration values agree on
/// every name: on whether the table holds it and on its target.
pub proof fn lemma_listings_agree_on_name(
    table: Map<Seq<char>, Seq<char>>,
    first: Seq<(Seq<char>, Seq<char>)>,
    second: Seq<(Seq<char>, Seq<char>)>,
    name: Seq<char>,
)
    requires
        keys_distinct(first),
        keys_distinct(second),
        forall|value: (Seq<char>, Seq<char>)| first.contains(value) <==> second.contains(value),
    ensures
        with_link_values(table, first).contains_key(name) == with_link_values(
            table,
            second,
        ).contains_key(name),
        with_link_values(table, first).contains_key(name) ==> with_link_values(table, first)[name]
            == with_link_values(table, second)[name],
{
    if exists|i: int|
        0 <= i < first.len() && #[trigger] defines_alias(first[i].0, first[i].1) && alias_name(
            first[i].0,
        ) == name {
        let i = choose|i: int|
            0 <= i < first.len() && #[trigger] defines_alias(first[i].0, first[i].1) && alias_name(
                first[i].0,
            ) == name;
        assert(first.contains(first[i]));
        assert(second.contains(first[i]));
        let j = choose|j: int| 0 <= j < second.len() && second[j] == first[i];
        lemma_definition_counts(table, first, i);
        lemma_definition_counts(table, second, j);
    } else {
        assert forall|j: int| 0 <= j < second.len() implies !(#[trigger] defines_alias(
            second[j].0,
            second[j].1,
        ) && alias_name(second[j].0) == name) by {
            if defines_alias(second[j].0, second[j].1) && alias_name(second[j].0) == name {
                assert(second.contains(second[j]));
                assert(first.contains(second[j]));
                let i = choose|i: int| 0 <= i < first.len() && first[i] == second[j];
                assert(defines_alias(first[i].0, first[i].1));
            }
        }
        lemma_undefined_name_kept(table, first, name);
        lemma_undefined_name_kept(table, second, name);
    }
}

/// The order in which the configuration values of a link are applied does
/// not matter as long as their keys are distinct, as they are in the map that
/// the values come from: two listings of the same values give the same table.
pub proof fn lemma_order_of_values_immaterial(
    table: Map<Seq<char>, Seq<char>>,
    first: Seq<(Seq<char>, Seq<char>)>,
    second: Seq<(Seq<char>, Seq<char>)>,
)
    requires
        keys_distinct(first),
        keys_distinct(second),
        forall|value: (Seq<char>, Seq<char>)| first.contains(value) <==> second.contains(value),
    ensures
        with_link_values(table, first) == with_link_values(table, second),
{
    let left = with_link_values(table, first);
    let right = with_link_values(table, second);
    assert forall|name: Seq<char>| left.dom().contains(name) == right.dom().contains(name) by {
        lemma_listings_agree_on_name(table, first, second, name);
    }
    assert forall|name: Seq<char>| left.dom().contains(name) implies left[name]
        == right[name] by {
        lemma_listings_agree_on_name(table, first, second, name);
    }
    assert(left =~= right);
}

/// Of the entries of the same name, the last one counts.
pub proof fn lemma_last_entry_counts(
    table: Map<Seq<char>, Seq<char>>,
    entries: Seq<(Seq<char>, Seq<char>)>,
    i: int,
)
    requires
        0 <= i < entries.len(),
        forall|j: int| i < j < entries.len() ==> (#[trigger] entries[j]).0 != entries[i].0,
    ensures
        with_entries(table, entries).contains_key(entries[i].0),
        with_entries(table, entries)[entries[i].0] == entries[i].1,
    decreases entries.len(),
{
    if i < entries.len() - 1 {
        let before = entries.drop_last();
        assert(before[i] == entries[i]);
        assert forall|j: int| i < j < before.len() implies (#[trigger] before[j]).0
            != before[i].0 by {
            assert(before[j] == entries[j]);
        }
        lemma_last_entry_counts(table, before, i);
        assert(entries[entries.len() - 1].0 != entries[i].0);
    }
}

/// A name that no entry has is in the table exactly if it was there before,
/// with the target it had.
pub proof fn lemma_unlisted_name_kept(
    table: Map<Seq<char>, Seq<char>>,
    entries: Seq<(Seq<char>, Seq<char>)>,
    name: Seq<char>,
)
    requires
        forall|j: int| 0 <= j < entries.len() ==> (#[trigger] entries[j]).0 != name,
    ensures
        with_entries(table, entries).contains_key(name) == table.contains_key(name),
        table.contains_key(name) ==> with_entries(table, entries)[name] == table[name],
    decreases entries.len(),
{
    if entries.len() > 0 {
        let before = entries.drop_last();
        assert forall|j: int| 0 <= j < before.len() implies (#[trigger] before[j]).0 != name by {
            assert(before[j] == entries[j]);
        }
        lemma_unlisted_name_kept(table, before, name);
        assert(entries[entries.len() - 1].0 != name);
    }
}

/// With distinct names, two listings of the same entries agree on every
/// name: on whether the table holds it and on its target.
pub proof fn lemma_entry_listings_agree_on_name(
    table: Map<Seq<char>, Seq<char>>,
    first: Seq<(Seq<char>, Seq<char>)>,
    second: Seq<(Seq<char>, Seq<char>)>,
    name: Seq<char>,
)
    requires
        keys_distinct(first),
        keys_distinct(second),
        forall|entry: (Seq<char>, Seq<char>)| first.contains(entry) <==> second.contains(entry),
    ensures
        with_entries(table, first).contains_key(name) == with_entries(table, second).contains_key(
            name,
        ),
        with_entries(table, first).contains_key(name) ==> with_entries(table, first)[name]
            == with_entries(table, second)[name],
{
    if exists|i: int| 0 <= i < first.len() && (#[trigger] first[i]).0 == name {
        let i = choose|i: int| 0 <= i < first.len() && (#[trigger] first[i]).0 == name;
        assert(first.contains(first[i]));
        assert(second.contains(first[i]));
        let j = choose|j: int| 0 <= j < second.len() && second[j] == first[i];
        lemma_last_entry_counts(table, first, i);
        lemma_last_entry_counts(table, second, j);
    } else {
        assert forall|j: int| 0 <= j < second.len() implies (#[trigger] second[j]).0 != name by {
            if second[j].0 == name {
                assert(second.contains(second[j]));
                assert(first.contains(second[j]));
                let i = choose|i: int| 0 <= i < first.len() && first[i] == second[j];
                assert(first[i].0 == name);
            }
        }
        lemma_unlisted_name_kept(table, first, name);
        lemma_unlisted_name_kept(table, second, name);
    }
}

/// The order in which entries are taken over does not matter as long as
/// their names are distinct, as they are in a map: two listings of the same
/// entries give the same table.
pub proof fn lemma_order_of_entries_immaterial(
    table: Map<Seq<char>, Seq<char>>,
    first: Seq<(Seq<char>, Seq<char>)>,
    second: Seq<(Seq<char>, Seq<char>)>,
)
    requires
        keys_distinct(first),
        keys_distinct(second),
        forall|entry: (Seq<char>, Seq<char>)| first.contains(entry) <==> second.contains(entry),
    ensures
        with_entries(table, first) == with_entries(table, second),
{
    let left = with_entries(table, first);
    let right = with_entries(table, second);
    assert forall|name: Seq<char>| left.dom().contains(name) == right.dom().contains(name) by {
        lemma_entry_listings_agree_on_name(table, first, second, name);
    }
    assert forall|name: Seq<char>| left.dom().contains(name) implies left[name]
        == right[name] by {
        lemma_entry_listings_agree_on_name(table, first, second, name);
    }
    assert(left =~= right);
}

} // verus!
