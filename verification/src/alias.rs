//! The alias table: invocation names and the command text that replaces
//! them.

use vstd::hash_map::StringHashMap;
use vstd::prelude::*;

verus! {

/// What `token` stands for under `table`: the replacement registered for
/// it, or the token itself. The replacement is not looked up again.
pub open spec fn resolve(table: Map<Seq<char>, Seq<char>>, token: Seq<char>) -> Seq<char> {
    if table.contains_key(token) {
        table[token]
    } else {
        token
    }
}

/// A table of aliases. Its view maps each registered name to its
/// replacement text.
pub struct AliasManager {
    aliases: StringHashMap<String>,
}

impl View for AliasManager {
    type V = Map<Seq<char>, Seq<char>>;

    closed spec fn view(&self) -> Self::V {
        self.aliases@.map_values(|command: String| command@)
    }
}

impl AliasManager {
    /// An empty table.
    pub fn new() -> (table: Self)
        ensures
            table@ == Map::<Seq<char>, Seq<char>>::empty(),
    {
        let table = AliasManager { aliases: StringHashMap::new() };
        assert(table@ =~= Map::<Seq<char>, Seq<char>>::empty());
        table
    }

    /// Registers `command` under `name`, replacing what was there.
    pub fn add_alias(&mut self, name: &str, command: &str)
        ensures
            final(self)@ == old(self)@.insert(name@, command@),
    {
        self.aliases.insert(name.to_owned(), command.to_owned());
        assert(self@ =~= old(self)@.insert(name@, command@));
    }

    /// Forgets `name`. Nothing changes when it is not registered.
    pub fn remove_alias(&mut self, name: &str)
        ensures
            final(self)@ == old(self)@.remove(name@),
    {
        self.aliases.remove(name);
        assert(self@ =~= old(self)@.remove(name@));
    }

    /// The replacement registered for `command`, or `command` itself.
    pub fn expand_alias<'a>(&'a self, command: &'a str) -> (out: &'a str)
        ensures
            out@ == resolve(self@, command@),
    {
        match self.aliases.get(command) {
            Some(alias) => alias.as_str(),
            None => command,
        }
    }
}

/// One change to an alias table.
pub enum AliasOp {
    Add { name: Seq<char>, command: Seq<char> },
    Remove { name: Seq<char> },
}

/// The table that results from applying `ops`, oldest first, to an empty
/// table.
pub open spec fn replay(ops: Seq<AliasOp>) -> Map<Seq<char>, Seq<char>>
    decreases ops.len(),
{
    if ops.len() == 0 {
        Map::empty()
    } else {
        match ops.last() {
            AliasOp::Add { name, command } => replay(ops.drop_last()).insert(name, command),
            AliasOp::Remove { name } => replay(ops.drop_last()).remove(name),
        }
    }
}

/// Whether `ops` leaves `token` without an alias: it was never added, or
/// it was removed after it was last added.
pub open spec fn unbound_after(ops: Seq<AliasOp>, token: Seq<char>) -> bool
    decreases ops.len(),
{
    if ops.len() == 0 {
        true
    } else {
        match ops.last() {
            AliasOp::Add { name, .. } => name != token && unbound_after(ops.drop_last(), token),
            AliasOp::Remove { name } => name == token || unbound_after(ops.drop_last(), token),
        }
    }
}

/// A token that is not registered resolves to itself.
pub proof fn lemma_resolve_miss(table: Map<Seq<char>, Seq<char>>, token: Seq<char>)
    requires
        !table.contains_key(token),
    ensures
        resolve(table, token) == token,
{
}

/// After any history of changes, a token is registered exactly when it was
/// added and not removed since; a token that was never added, or was
/// removed after it was added, resolves to itself.
pub proof fn lemma_resolve_unbound(ops: Seq<AliasOp>, token: Seq<char>)
    ensures
        unbound_after(ops, token) <==> !replay(ops).contains_key(token),
        unbound_after(ops, token) ==> resolve(replay(ops), token) == token,
    decreases ops.len(),
{
    if ops.len() > 0 {
        lemma_resolve_unbound(ops.drop_last(), token);
    }
}

/// Resolving is a single substitution: what a registered name resolves to
/// is its replacement, whether or not the replacement is a name too.
pub proof fn lemma_resolve_once(
    table: Map<Seq<char>, Seq<char>>,
    name: Seq<char>,
    command: Seq<char>,
)
    ensures
        resolve(table.insert(name, command), name) == command,
{
}

} // verus!
