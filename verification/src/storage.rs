//! The storage-initialization plan and the storage descriptor.
//!
//! The store itself is an outside collaborator, reached only from outside
//! the library. What the library owns is the plan: which steps bring a
//! store from its current state to ready — create it when missing, apply
//! the pending migrations, then compact — and the proof that running the
//! plan a second time changes nothing and duplicates no schema object.

use vstd::prelude::*;

verus! {

/// The state of the backing store, as the initialization plan sees it:
/// whether the database exists, and how many of the schema migrations are
/// applied to it.
#[derive(Debug, PartialEq, Eq, Structural, Clone, Copy)]
pub struct StoreState {
    /// Whether the database exists at its descriptor.
    pub exists: bool,
    /// How many schema migrations are applied, counted from the first.
    pub migrations_applied: u64,
}

/// One step of the initialization plan.
#[derive(Debug, PartialEq, Eq, Structural, Clone, Copy)]
pub enum InitAction {
    /// Create the database, because it does not exist yet.
    CreateDatabase,
    /// Apply the next pending schema migration.
    ApplyMigration,
    /// Compact the store.
    Vacuum,
}

/// How many migrations are still pending on a store.
pub open spec fn spec_pending(state: StoreState, total_migrations: u64) -> int {
    if state.migrations_applied >= total_migrations {
        0
    } else {
        total_migrations - state.migrations_applied
    }
}

/// The store after the initialization plan ran: it exists and no
/// migration is pending.
pub open spec fn spec_initialized(state: StoreState, total_migrations: u64) -> StoreState {
    StoreState {
        exists: true,
        migrations_applied: if state.migrations_applied >= total_migrations {
            state.migrations_applied
        } else {
            total_migrations
        },
    }
}

/// The steps the plan takes on a store: create it only when it is
/// missing, apply exactly the pending migrations, then compact.
pub open spec fn spec_init_actions(state: StoreState, total_migrations: u64) -> Seq<InitAction> {
    (if state.exists {
        Seq::<InitAction>::empty()
    } else {
        seq![InitAction::CreateDatabase]
    }) + Seq::new(spec_pending(state, total_migrations) as nat, |i: int| InitAction::ApplyMigration)
        + seq![InitAction::Vacuum]
}

/// Plan the initialization of a store: advance the model state to ready
/// and return the steps for the runner to perform against the real store,
/// in order.
#[verifier::loop_isolation(false)]
pub fn init_store(state: &mut StoreState, total_migrations: u64) -> (actions: Vec<InitAction>)
    ensures
        *final(state) == spec_initialized(*old(state), total_migrations),
        actions@ == spec_init_actions(*old(state), total_migrations),
{
    let mut actions: Vec<InitAction> = Vec::new();
    if !state.exists {
        actions.push(InitAction::CreateDatabase);
        state.exists = true;
    }
    let ghost created = actions@;
    let pending = if state.migrations_applied >= total_migrations {
        0
    } else {
        total_migrations - state.migrations_applied
    };
    let mut applied: u64 = 0;
    while applied < pending
        invariant
            applied <= pending,
            actions@ == created + Seq::new(
                applied as nat,
                |i: int| InitAction::ApplyMigration,
            ),
        decreases pending - applied,
    {
        actions.push(InitAction::ApplyMigration);
        applied += 1;
        proof {
            assert(actions@ =~= created + Seq::new(
                applied as nat,
                |i: int| InitAction::ApplyMigration,
            ));
        }
    }
    if state.migrations_applied < total_migrations {
        state.migrations_applied = total_migrations;
    }
    actions.push(InitAction::Vacuum);
    proof {
        assert(actions@ =~= spec_init_actions(*old(state), total_migrations));
    }
    actions
}

/// Law (idempotent startup): initializing a store that was already
/// initialized with the same descriptor leaves it exactly as it was, and
/// the second plan creates nothing and applies no migration — its only
/// step is the compaction pass, so no schema object is ever duplicated
/// and the handle stays usable.
pub proof fn lemma_init_idempotent(state: StoreState, total_migrations: u64)
    ensures
        spec_initialized(spec_initialized(state, total_migrations), total_migrations)
            == spec_initialized(state, total_migrations),
        spec_init_actions(spec_initialized(state, total_migrations), total_migrations)
            =~= seq![InitAction::Vacuum],
{
    let once = spec_initialized(state, total_migrations);
    assert(spec_pending(once, total_migrations) == 0);
    assert(spec_init_actions(once, total_migrations) =~= seq![InitAction::Vacuum]);
}

/// Where the first question mark stands in a piece of text, or its end
/// when it holds none.
pub open spec fn spec_qmark_index(s: Seq<char>) -> int
    decreases s.len(),
{
    if s.len() == 0 {
        0
    } else if s[0] == '?' {
        0
    } else {
        1 + spec_qmark_index(s.drop_first())
    }
}

/// The database file path inside a storage descriptor: the text after the
/// `sqlite://` scheme up to the first question mark, or nothing when the
/// descriptor carries a different scheme.
pub open spec fn spec_database_path(url: Seq<char>) -> Option<Seq<char>> {
    if url.len() >= 9 && url.subrange(0, 9) == "sqlite://"@ {
        let rest = url.subrange(9, url.len() as int);
        Some(rest.subrange(0, spec_qmark_index(rest)))
    } else {
        None
    }
}

proof fn lemma_qmark_index_at(s: Seq<char>, j: int)
    requires
        0 <= j <= s.len(),
        forall|k: int| 0 <= k < j ==> s[k] != '?',
        j < s.len() ==> s[j] == '?',
    ensures
        spec_qmark_index(s) == j,
    decreases s.len(),
{
    if j == 0 {
    } else {
        let rest = s.drop_first();
        assert(forall|k: int| 0 <= k < j - 1 ==> rest[k] != '?');
        lemma_qmark_index_at(rest, j - 1);
    }
}

/// Extract the database file path from a storage descriptor, so that the
/// runner can create the directories that lead to it before the store is
/// opened.
#[verifier::loop_isolation(false)]
pub fn database_file_path(url: &str) -> (path: Option<String>)
    ensures
        match spec_database_path(url@) {
            Some(p) => path matches Some(found) && found@ == p,
            None => path is None,
        },
{
    let scheme = "sqlite://";
    proof {
        reveal_strlit("sqlite://");
    }
    let n = url.unicode_len();
    if n < 9 {
        return None;
    }
    let mut i: usize = 0;
    while i < 9
        invariant
            i <= 9,
            forall|k: int| 0 <= k < i ==> url@[k] == scheme@[k],
        decreases 9 - i,
    {
        if url.get_char(i) != scheme.get_char(i) {
            proof {
                assert(url@.subrange(0, 9)[i as int] != "sqlite://"@[i as int]);
            }
            return None;
        }
        i += 1;
    }
    proof {
        assert(url@.subrange(0, 9) =~= "sqlite://"@);
    }
    let mut end: usize = 9;
    while end < n && url.get_char(end) != '?'
        invariant
            9 <= end <= n,
            forall|k: int| 9 <= k < end ==> url@[k] != '?',
        decreases n - end,
    {
        end += 1;
    }
    let found = url.substring_char(9, end).to_owned();
    proof {
        let rest = url@.subrange(9, url@.len() as int);
        assert(forall|k: int| 0 <= k < end - 9 ==> rest[k] != '?');
        if end < n {
            assert(rest[end - 9] == '?');
        }
        lemma_qmark_index_at(rest, end - 9);
        assert(found@ =~= rest.subrange(0, end - 9));
    }
    Some(found)
}

} // verus!
