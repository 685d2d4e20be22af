//! Schema migration planning. Migrations are applied in order, each once,
//! all or nothing; a database newer than this build is refused.
use crate::domain::project::AuraError;
use crate::text::{joined, signed_decimal, signed_decimal_text};
use vstd::prelude::*;

verus! {

/// One schema migration.
#[derive(Clone, Copy, Debug)]
pub struct Migration {
    pub version: i64,
    pub name: &'static str,
    pub sql: &'static str,
}

/// The newest schema version a list of migrations reaches (0 for none).
pub open spec fn supported_version(migrations: Seq<Migration>) -> i64 {
    if migrations.len() == 0 {
        0
    } else {
        migrations.last().version
    }
}

/// The positions, among the first `n` migrations, of those newer than
/// `current`, in order.
pub open spec fn pending_positions(migrations: Seq<Migration>, current: i64, n: nat) -> Seq<usize>
    decreases n,
{
    if n == 0 {
        Seq::empty()
    } else {
        let earlier = pending_positions(migrations, current, (n - 1) as nat);
        if migrations[n - 1].version > current {
            earlier.push((n - 1) as usize)
        } else {
            earlier
        }
    }
}

/// Which migrations to apply to a database at schema version
/// `current_version`: those newer than it, in order. A database newer than
/// the newest migration is refused.
pub fn pending_migrations(current_version: i64, migrations: &[Migration]) -> (r: Result<
    Vec<usize>,
    AuraError,
>)
    ensures
        current_version > supported_version(migrations@) ==> (r matches Err(e)
            && e.is_storage_with(
            "Aura found a newer local database format. Update Aura before opening this workspace."@,
        )),
        current_version <= supported_version(migrations@) ==> (r matches Ok(positions)
            && positions@ == pending_positions(
            migrations@,
            current_version,
            migrations@.len() as nat,
        )),
{
    let supported: i64 = if migrations.len() == 0 {
        0
    } else {
        migrations[migrations.len() - 1].version
    };
    if current_version > supported {
        return Err(
            AuraError::Storage(
                String::from_str(
                    "Aura found a newer local database format. Update Aura before opening this workspace.",
                ),
            ),
        );
    }
    let mut positions: Vec<usize> = Vec::new();
    let mut i: usize = 0;
    while i < migrations.len()
        invariant
            i <= migrations@.len(),
            positions@ == pending_positions(migrations@, current_version, i as nat),
        decreases migrations.len() - i,
    {
        if migrations[i].version > current_version {
            positions.push(i);
        }
        i = i + 1;
    }
    Ok(positions)
}

/// The versions strictly increase along the list.
pub open spec fn strictly_ascending(migrations: Seq<Migration>) -> bool {
    forall|i: int, j: int|
        0 <= i < j < migrations.len() ==> #[trigger] migrations[i].version
            < #[trigger] migrations[j].version
}

/// Once every migration is applied, applying them again is a no-op: a
/// database at the newest version has nothing pending.
pub proof fn lemma_reapplying_migrations_is_a_no_op(migrations: Seq<Migration>, n: nat)
    requires
        strictly_ascending(migrations),
        n <= migrations.len(),
    ensures
        pending_positions(migrations, supported_version(migrations), n).len() == 0,
    decreases n,
{
    if n > 0 {
        lemma_reapplying_migrations_is_a_no_op(migrations, (n - 1) as nat);
        if n - 1 < migrations.len() - 1 {
            assert(migrations[n - 1].version < migrations[migrations.len() - 1].version);
        }
    }
}

/// The message a failed migration is reported with.
pub fn migration_failure(migration: &Migration, detail: &str) -> (r: String)
    ensures
        r@ == "Aura could not apply local schema migration "@ + (signed_decimal_text(
            migration.version as int,
        ) + (" ("@ + (migration.name@ + ("). Your existing database was left unchanged: "@
            + detail@)))),
{
    let tail = joined("). Your existing database was left unchanged: ", detail);
    let tail = joined(migration.name, tail.as_str());
    let tail = joined(" (", tail.as_str());
    let version = signed_decimal(migration.version);
    let tail = joined(version.as_str(), tail.as_str());
    joined("Aura could not apply local schema migration ", tail.as_str())
}

} // verus!
