//! The roles of a tenant's members, and the permissions that the roles grant.

use serenity::model::permissions::Permissions;
use vstd::multiset::lemma_multiset_empty_len;
use vstd::prelude::*;
use vstd::seq_lib::{to_multiset_build, to_multiset_insert, to_multiset_len};
use vstd::string::StringExecFns;
use crate::helper::{decimal, to_decimal};

verus! {

/// A role of a tenant, as plain values.
#[derive(Debug)]
pub struct Role {
    pub id: u64,
    pub name: String,
    /// Where the role stands among the tenant's roles; a greater number stands
    /// higher.
    pub position: u16,
    /// The permissions that the role grants, one bit each.
    pub permissions: u64,
}

/// The model of a [`Role`].
pub struct RoleView {
    pub id: u64,
    pub name: Seq<char>,
    pub position: u16,
    pub permissions: u64,
}

impl View for Role {
    type V = RoleView;

    open spec fn view(&self) -> RoleView {
        RoleView {
            id: self.id,
            name: self.name@,
            position: self.position,
            permissions: self.permissions,
        }
    }
}

impl Clone for Role {
    fn clone(&self) -> (role: Self)
        ensures
            role == *self,
    {
        Role {
            id: self.id,
            name: self.name.clone(),
            position: self.position,
            permissions: self.permissions,
        }
    }
}

/// The models of the roles of a sequence, in its order.
pub open spec fn role_views(roles: Seq<Role>) -> Seq<RoleView> {
    Seq::new(roles.len(), |i: int| roles[i]@)
}

/// The name of the role that every member has.
pub open spec fn everyone() -> Seq<char> {
    seq!['@', 'e', 'v', 'e', 'r', 'y', 'o', 'n', 'e']
}

impl RoleView {
    /// The text that mentions the role in a message: the name itself for the
    /// role that every member has, else the role's identifier in its brackets.
    pub open spec fn mention(self) -> Seq<char> {
        if self.name == everyone() {
            everyone()
        } else {
            seq!['<', '@', '&'] + decimal(self.id as nat) + seq!['>']
        }
    }
}

/// How a role is written where a message mentions it.
pub trait RoleExt {
    /// The text that mentions the role.
    fn as_mention(&self) -> String;
}

impl RoleExt for Role {
    fn as_mention(&self) -> (text: String)
        ensures
            text@ == self@.mention(),
    {
        proof {
            reveal_strlit("@everyone");
            reveal_strlit("<@&");
            reveal_strlit(">");
            assert("@everyone"@ =~= everyone());
        }
        let everyone = String::from_str("@everyone");
        if self.name == everyone {
            return everyone;
        }
        let mut text = String::from_str("<@&");
        text.append(to_decimal(self.id as u128).as_str());
        text.append(">");
        text
    }
}

/// Whether no role stands before a role of a higher position.
pub open spec fn highest_first(roles: Seq<RoleView>) -> bool {
    forall|i: int, j: int| 0 <= i <= j < roles.len() ==> roles[i].position >= roles[j].position
}

/// Puts a tenant's roles in order, the highest position first.
pub fn get_guild_roles(roles: Vec<Role>) -> (sorted: Vec<Role>)
    ensures
        highest_first(role_views(sorted@)),
        role_views(sorted@).to_multiset() == role_views(roles@).to_multiset(),
{
    let mut rest = roles;
    let mut sorted: Vec<Role> = Vec::new();
    proof {
        to_multiset_len(role_views(sorted@));
        lemma_multiset_empty_len(role_views(sorted@).to_multiset());
    }
    while rest.len() > 0
        invariant
            highest_first(role_views(sorted@)),
            role_views(sorted@).to_multiset().add(role_views(rest@).to_multiset()) == role_views(
                roles@,
            ).to_multiset(),
        decreases rest.len(),
    {
        let ghost before = role_views(rest@);
        let ghost placed = role_views(sorted@);
        let role = rest.pop().unwrap();
        let mut at: usize = 0;
        while at < sorted.len() && sorted[at].position > role.position
            invariant
                at <= sorted.len(),
                forall|i: int| 0 <= i < at ==> sorted@[i].position > role.position,
            decreases sorted.len() - at,
        {
            at += 1;
        }
        sorted.insert(at, role);
        proof {
            assert(before =~= role_views(rest@).push(role@));
            assert(role_views(sorted@) =~= placed.insert(at as int, role@));
            to_multiset_build(role_views(rest@), role@);
            to_multiset_insert(placed, at as int, role@);
            assert forall|i: int, j: int| 0 <= i <= j < sorted@.len() implies role_views(
                sorted@,
            )[i].position >= role_views(sorted@)[j].position by {
                if i < at && j < at {
                    assert(placed[i].position >= placed[j].position);
                }
            }
        }
    }
    proof {
        to_multiset_len(role_views(rest@));
        lemma_multiset_empty_len(role_views(rest@).to_multiset());
    }
    sorted
}

/// Whether an identifier is among those of a list.
pub fn has_id(ids: &Vec<u64>, id: u64) -> (found: bool)
    ensures
        found == ids@.contains(id),
{
    let mut at: usize = 0;
    while at < ids.len()
        invariant
            at <= ids.len(),
            forall|i: int| 0 <= i < at ==> ids@[i] != id,
        decreases ids.len() - at,
    {
        if ids[at] == id {
            return true;
        }
        at += 1;
    }
    false
}

/// Keeps, of a tenant's roles, those that a member has, in the order in which
/// they stand. A member's roles are given by their identifiers.
pub fn get_user_roles(roles: &Vec<Role>, member_roles: &Vec<u64>) -> (kept: Vec<Role>)
    ensures
        role_views(kept@) == role_views(roles@).filter(
            |role: RoleView| member_roles@.contains(role.id),
        ),
{
    let ghost wanted = |role: RoleView| member_roles@.contains(role.id);
    let ghost all = role_views(roles@);
    let mut kept: Vec<Role> = Vec::new();
    let mut at: usize = 0;
    proof {
        reveal(Seq::filter);
    }
    while at < roles.len()
        invariant
            at <= roles.len(),
            all == role_views(roles@),
            wanted == |role: RoleView| member_roles@.contains(role.id),
            role_views(kept@) == all.take(at as int).filter(wanted),
        decreases roles.len() - at,
    {
        proof {
            reveal(Seq::filter);
            assert(all.take(at + 1).drop_last() =~= all.take(at as int));
        }
        if has_id(member_roles, roles[at].id) {
            kept.push(roles[at].clone());
        }
        at += 1;
    }
    assert(all.take(roles@.len() as int) =~= all);
    kept
}

/// The permissions that roles grant together: every bit that one of them grants.
pub open spec fn granted_by(roles: Seq<RoleView>) -> u64
    decreases roles.len(),
{
    if roles.len() == 0 {
        0
    } else {
        granted_by(roles.drop_last()) | roles.last().permissions
    }
}

/// Joins the permissions of a member's roles.
pub fn get_all_permissions(roles: &Vec<Role>) -> (permissions: u64)
    ensures
        permissions == granted_by(role_views(roles@)),
{
    let mut permissions: u64 = 0;
    let mut at: usize = 0;
    while at < roles.len()
        invariant
            at <= roles.len(),
            permissions == granted_by(role_views(roles@).take(at as int)),
        decreases roles.len() - at,
    {
        assert(role_views(roles@).take(at + 1).drop_last() =~= role_views(roles@).take(
            at as int,
        ));
        permissions = permissions | roles[at].permissions;
        at += 1;
    }
    assert(role_views(roles@).take(roles@.len() as int) =~= role_views(roles@));
    permissions
}

/// The names of the permissions whose bits are set in `bits`, in the order in
/// which the chat service lists its permissions.
pub uninterp spec fn permission_names(bits: u64) -> Seq<Seq<char>>;

/// The models of the texts of a sequence, in its order.
pub open spec fn text_views(texts: Seq<String>) -> Seq<Seq<char>> {
    Seq::new(texts.len(), |i: int| texts[i]@)
}

/// `Permissions::get_permission_names` lists the name of every permission that a
/// set of permissions holds. The wrapper makes the set from its bits with
/// `Permissions::from_bits_truncate`, which drops the bits that stand for no
/// permission. The contract claims only that the list depends on the bits alone.
#[verifier::external_body]
fn names_of(bits: u64) -> (names: Vec<String>)
    ensures
        text_views(names@) == permission_names(bits),
{
    let held = Permissions::from_bits_truncate(bits);
    held.get_permission_names().into_iter().map(String::from).collect()
}

/// The name of the permission that grants every other.
pub open spec fn administrator() -> Seq<char> {
    seq!['A', 'd', 'm', 'i', 'n', 'i', 's', 't', 'r', 'a', 't', 'o', 'r']
}

/// Whether a member who holds the permissions named in `held` has the
/// permission `name`: an administrator has every permission, anyone else those
/// that are named.
pub open spec fn permits(held: Seq<Seq<char>>, name: Seq<char>) -> bool {
    held.contains(administrator()) || held.contains(name)
}

/// The texts of a sequence without repetition: each text stands where it stands
/// first, and nowhere else.
pub open spec fn first_occurrences(texts: Seq<Seq<char>>) -> Seq<Seq<char>>
    decreases texts.len(),
{
    if texts.len() == 0 {
        Seq::empty()
    } else {
        let before = first_occurrences(texts.drop_last());
        if before.contains(texts.last()) {
            before
        } else {
            before.push(texts.last())
        }
    }
}

/// A sequence without repetition holds the texts of the sequence that it was
/// made from, and no other.
pub proof fn lemma_first_occurrences_holds(texts: Seq<Seq<char>>, text: Seq<char>)
    ensures
        first_occurrences(texts).contains(text) <==> texts.contains(text),
    decreases texts.len(),
{
    if texts.len() > 0 {
        let init = texts.drop_last();
        let before = first_occurrences(init);
        lemma_first_occurrences_holds(init, text);
        lemma_first_occurrences_holds(init, texts.last());
        if init.contains(text) {
            let place = choose|place: int| 0 <= place < before.len() && before[place] == text;
            assert(before.push(texts.last())[place] == text);
        }
        if texts.contains(text) && !init.contains(text) {
            let at = choose|at: int| 0 <= at < texts.len() && texts[at] == text;
            if at < init.len() {
                assert(init[at] == text);
            }
            assert(before.push(texts.last())[before.len() as int] == text);
        }
        if first_occurrences(texts).contains(text) && !before.contains(text) {
            let place = choose|place: int|
                0 <= place < first_occurrences(texts).len() && first_occurrences(texts)[place]
                    == text;
            assert(place == before.len());
            assert(texts[texts.len() - 1] == text);
        }
    }
}

/// A sequence without repetition holds no text twice.
pub proof fn lemma_first_occurrences_distinct(texts: Seq<Seq<char>>)
    ensures
        first_occurrences(texts).no_duplicates(),
    decreases texts.len(),
{
    if texts.len() > 0 {
        lemma_first_occurrences_distinct(texts.drop_last());
    }
}

/// The names of the entries of a permission list, in its order.
pub open spec fn table_names(table: Seq<(String, bool)>) -> Seq<Seq<char>> {
    Seq::new(table.len(), |i: int| table[i].0@)
}

/// Whether `table` says of every permission of `all` whether a member who holds
/// the permissions named in `held` has it: one entry for each name, in the
/// order in which the names first stand in `all`.
pub open spec fn is_permission_table(
    table: Seq<(String, bool)>,
    all: Seq<Seq<char>>,
    held: Seq<Seq<char>>,
) -> bool {
    &&& table_names(table) == first_occurrences(all)
    &&& forall|i: int|
        0 <= i < table.len() ==> (#[trigger] table[i]).1 == permits(held, table[i].0@)
}

/// Whether a text is among those of a list.
pub fn has_name(names: &Vec<String>, name: &String) -> (found: bool)
    ensures
        found == text_views(names@).contains(name@),
{
    let mut at: usize = 0;
    while at < names.len()
        invariant
            at <= names.len(),
            forall|i: int| 0 <= i < at ==> text_views(names@)[i] != name@,
        decreases names.len() - at,
    {
        if names[at] == *name {
            assert(text_views(names@)[at as int] == name@);
            return true;
        }
        at += 1;
    }
    false
}

/// Whether a permission list has an entry of the name `name`.
pub fn has_entry(table: &Vec<(String, bool)>, name: &String) -> (found: bool)
    ensures
        found == table_names(table@).contains(name@),
{
    let mut at: usize = 0;
    while at < table.len()
        invariant
            at <= table.len(),
            forall|i: int| 0 <= i < at ==> table_names(table@)[i] != name@,
        decreases table.len() - at,
    {
        if table[at].0 == *name {
            assert(table_names(table@)[at as int] == name@);
            return true;
        }
        at += 1;
    }
    false
}

/// Says of every permission named in `all` whether a member has it who holds
/// those named in `held`. A name that stands in `all` more than once has one
/// entry, where it stands first.
pub fn permission_table(all: &Vec<String>, held: &Vec<String>) -> (table: Vec<(String, bool)>)
    ensures
        is_permission_table(table@, text_views(all@), text_views(held@)),
        table_names(table@).no_duplicates(),
{
    proof {
        reveal_strlit("Administrator");
        assert("Administrator"@ =~= administrator());
    }
    let grants_all = String::from_str("Administrator");
    let everything = has_name(held, &grants_all);
    let mut table: Vec<(String, bool)> = Vec::new();
    let mut at: usize = 0;
    while at < all.len()
        invariant
            at <= all.len(),
            everything == text_views(held@).contains(administrator()),
            table_names(table@) == first_occurrences(text_views(all@).take(at as int)),
            forall|i: int|
                0 <= i < table@.len() ==> (#[trigger] table@[i]).1 == permits(
                    text_views(held@),
                    table@[i].0@,
                ),
        decreases all.len() - at,
    {
        assert(text_views(all@).take(at + 1).drop_last() =~= text_views(all@).take(at as int));
        if !has_entry(&table, &all[at]) {
            let has = everything || has_name(held, &all[at]);
            table.push((all[at].clone(), has));
        }
        at += 1;
    }
    proof {
        assert(text_views(all@).take(all@.len() as int) =~= text_views(all@));
        lemma_first_occurrences_distinct(text_views(all@));
    }
    table
}

/// Says of every permission that the chat service knows whether a member has it
/// whose roles grant the permissions `granted`. No permission has two entries.
pub fn get_permissions(granted: u64) -> (table: Vec<(String, bool)>)
    ensures
        is_permission_table(table@, permission_names(u64::MAX), permission_names(granted)),
        table_names(table@).no_duplicates(),
{
    let all = names_of(u64::MAX);
    let held = names_of(granted);
    permission_table(&all, &held)
}

} // verus!
