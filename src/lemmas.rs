use vstd::prelude::*;

use crate::project::ProjectView;
use crate::registry::{RegistryError, RegistryView};

verus! {

/// The registry after `caller` asks to append each of `added`, in order.
pub open spec fn after_adds(reg: RegistryView, caller: Seq<char>, added: Seq<ProjectView>) -> RegistryView
    decreases added.len(),
{
    if added.len() == 0 {
        reg
    } else {
        after_adds(reg, caller, added.drop_last()).after_add(caller, added.last())
    }
}

/// Appends by the owner keep every record as given, in the order given: the
/// list grows by one per call, and the record at each new position is the one
/// added there.
pub proof fn lemma_adds_keep_order(reg: RegistryView, added: Seq<ProjectView>)
    ensures
        after_adds(reg, reg.owner, added).owner == reg.owner,
        after_adds(reg, reg.owner, added).admin == reg.admin,
        after_adds(reg, reg.owner, added).projects == reg.projects + added,
        after_adds(reg, reg.owner, added).projects.len() == reg.projects.len() + added.len(),
        forall|i: int|
            0 <= i < added.len() ==> after_adds(reg, reg.owner, added).project_at(
                reg.projects.len() + i,
            ) == Some(#[trigger] added[i]),
        after_adds(reg, reg.owner, added).project_at(reg.projects.len() + added.len() as int) is None,
    decreases added.len(),
{
    if added.len() > 0 {
        lemma_adds_keep_order(reg, added.drop_last());
        assert(reg.projects + added =~= (reg.projects + added.drop_last()).push(added.last()));
    } else {
        assert(reg.projects + added =~= reg.projects);
    }
}

/// A caller other than the owner cannot add or rewrite a project: the call is
/// refused as unauthorized and the registry stays as it was.
pub proof fn lemma_only_owner_writes(
    reg: RegistryView,
    caller: Seq<char>,
    index: int,
    p: ProjectView,
)
    requires
        caller != reg.owner,
    ensures
        reg.owner_outcome(caller) == Err::<(), RegistryError>(RegistryError::Unauthorized),
        reg.after_add(caller, p) == reg,
        reg.indexed_outcome(reg.owner, caller, index) == Err::<(), RegistryError>(
            RegistryError::Unauthorized,
        ),
        reg.after_update(caller, index, p) == reg,
{
}

/// A caller other than the admin cannot verify or remove projects: the call is
/// refused as unauthorized and the registry stays as it was.
pub proof fn lemma_only_admin_verifies_or_removes(
    reg: RegistryView,
    caller: Seq<char>,
    index: int,
    indexes: Seq<usize>,
)
    requires
        caller != reg.admin,
    ensures
        reg.indexed_outcome(reg.admin, caller, index) == Err::<(), RegistryError>(
            RegistryError::Unauthorized,
        ),
        reg.after_verify(caller, index) == reg,
        reg.verify_all_outcome(caller, indexes) == Err::<(), RegistryError>(
            RegistryError::Unauthorized,
        ),
        reg.after_verify_all(caller, indexes) == reg,
        reg.after_remove(caller, index) == reg,
{
}

/// Rewriting the project at a valid index changes that position alone.
pub proof fn lemma_update_touches_one(reg: RegistryView, index: int, p: ProjectView)
    requires
        0 <= index < reg.projects.len(),
    ensures
        reg.after_update(reg.owner, index, p).owner == reg.owner,
        reg.after_update(reg.owner, index, p).admin == reg.admin,
        reg.after_update(reg.owner, index, p).projects.len() == reg.projects.len(),
        reg.after_update(reg.owner, index, p).projects[index] == p,
        forall|j: int|
            0 <= j < reg.projects.len() && j != index ==> #[trigger] reg.after_update(
                reg.owner,
                index,
                p,
            ).projects[j] == reg.projects[j],
{
}

/// Verifying the same project twice leaves the registry as verifying it once.
pub proof fn lemma_verify_twice(reg: RegistryView, caller: Seq<char>, index: int)
    ensures
        reg.after_verify(caller, index).after_verify(caller, index) == reg.after_verify(
            caller,
            index,
        ),
        reg.after_verify(caller, index).indexed_outcome(
            reg.after_verify(caller, index).admin,
            caller,
            index,
        ) == reg.indexed_outcome(reg.admin, caller, index),
{
    let once = reg.after_verify(caller, index);
    if reg.indexed_outcome(reg.admin, caller, index) is Ok {
        assert(once.projects.update(index, once.projects[index].mark_verified()) =~= once.projects);
    }
}

/// A batch of verifications with one index that names no project is refused
/// as out of range and marks none of the batch.
pub proof fn lemma_verify_all_or_nothing(reg: RegistryView, indexes: Seq<usize>, k: int)
    requires
        0 <= k < indexes.len(),
        indexes[k] >= reg.projects.len(),
    ensures
        reg.verify_all_outcome(reg.admin, indexes) == Err::<(), RegistryError>(
            RegistryError::IndexOutOfRange,
        ),
        reg.after_verify_all(reg.admin, indexes) == reg,
{
}

/// Removing the project at a valid index shortens the list by one and moves
/// every later project one place forward; the old last position is then empty.
pub proof fn lemma_remove_shifts(reg: RegistryView, index: int)
    requires
        0 <= index < reg.projects.len(),
    ensures
        reg.after_remove(reg.admin, index).projects.len() == reg.projects.len() - 1,
        forall|j: int|
            0 <= j < index ==> #[trigger] reg.after_remove(reg.admin, index).projects[j]
                == reg.projects[j],
        forall|j: int|
            index <= j < reg.projects.len() - 1 ==> #[trigger] reg.after_remove(
                reg.admin,
                index,
            ).projects[j] == reg.projects[j + 1],
        reg.after_remove(reg.admin, index).project_at(reg.projects.len() - 1) is None,
{
}

} // verus!
