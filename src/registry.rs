use vstd::prelude::*;

use crate::account::{AccountId, valid_account_id};
use crate::project::{Project, ProjectView, tags_view};

verus! {

/// The account that both roles go to in a registry made by `default`.
pub const DEFAULT_ACCOUNT: &'static str = "social.near";

/// Why a call was refused. A refused call changes nothing.
#[derive(Debug, Clone, Copy, PartialEq, Eq, Structural)]
pub enum RegistryError {
    /// The caller does not hold the role that the operation asks for.
    Unauthorized,
    /// An index names no position of the project list.
    IndexOutOfRange,
}

/// What a registry holds, as mathematical values.
pub struct RegistryView {
    pub owner: Seq<char>,
    pub admin: Seq<char>,
    pub projects: Seq<ProjectView>,
}

impl RegistryView {
    /// The same registry holding another project list.
    pub open spec fn with_projects(self, projects: Seq<ProjectView>) -> RegistryView {
        RegistryView { projects, ..self }
    }

    /// The project at `index`, if there is one.
    pub open spec fn project_at(self, index: int) -> Option<ProjectView> {
        if 0 <= index < self.projects.len() {
            Some(self.projects[index])
        } else {
            None
        }
    }

    /// The outcome of a call that the owner alone may make.
    pub open spec fn owner_outcome(self, caller: Seq<char>) -> Result<(), RegistryError> {
        if caller != self.owner {
            Err(RegistryError::Unauthorized)
        } else {
            Ok(())
        }
    }

    /// The outcome of a call on one position that the given role alone may make.
    pub open spec fn indexed_outcome(self, role: Seq<char>, caller: Seq<char>, index: int) -> Result<
        (),
        RegistryError,
    > {
        if caller != role {
            Err(RegistryError::Unauthorized)
        } else if !(0 <= index < self.projects.len()) {
            Err(RegistryError::IndexOutOfRange)
        } else {
            Ok(())
        }
    }

    /// The registry after `caller` asks to append `p`.
    pub open spec fn after_add(self, caller: Seq<char>, p: ProjectView) -> RegistryView {
        if self.owner_outcome(caller) is Ok {
            self.with_projects(self.projects.push(p))
        } else {
            self
        }
    }

    /// The registry after `caller` asks to put `p` in place of the project at `index`.
    pub open spec fn after_update(self, caller: Seq<char>, index: int, p: ProjectView) -> RegistryView {
        if self.indexed_outcome(self.owner, caller, index) is Ok {
            self.with_projects(self.projects.update(index, p))
        } else {
            self
        }
    }

    /// The registry after `caller` asks to mark the project at `index` verified.
    pub open spec fn after_verify(self, caller: Seq<char>, index: int) -> RegistryView {
        if self.indexed_outcome(self.admin, caller, index) is Ok {
            self.with_projects(self.projects.update(index, self.projects[index].mark_verified()))
        } else {
            self
        }
    }

    /// The outcome of asking to mark the projects at `indexes` verified.
    pub open spec fn verify_all_outcome(self, caller: Seq<char>, indexes: Seq<usize>) -> Result<
        (),
        RegistryError,
    > {
        if caller != self.admin {
            Err(RegistryError::Unauthorized)
        } else if exists|k: int|
            0 <= k < indexes.len() && #[trigger] indexes[k] >= self.projects.len() {
            Err(RegistryError::IndexOutOfRange)
        } else {
            Ok(())
        }
    }

    /// The registry after `caller` asks to mark the projects at `indexes` verified:
    /// all of them or, where the call is refused, none.
    pub open spec fn after_verify_all(self, caller: Seq<char>, indexes: Seq<usize>) -> RegistryView {
        if self.verify_all_outcome(caller, indexes) is Ok {
            self.with_projects(
                Seq::new(
                    self.projects.len(),
                    |j: int|
                        if indexes.contains(j as usize) {
                            self.projects[j].mark_verified()
                        } else {
                            self.projects[j]
                        },
                ),
            )
        } else {
            self
        }
    }

    /// The registry after `caller` asks to remove the project at `index`.
    pub open spec fn after_remove(self, caller: Seq<char>, index: int) -> RegistryView {
        if self.indexed_outcome(self.admin, caller, index) is Ok {
            self.with_projects(self.projects.remove(index))
        } else {
            self
        }
    }
}

/// The project list, with the owner who may add and rewrite projects and the
/// admin who may verify and remove them. A project is known by its position.
pub struct ProjectRegistry {
    owner: AccountId,
    admin: AccountId,
    projects: Vec<Project>,
}

impl View for ProjectRegistry {
    type V = RegistryView;

    closed spec fn view(&self) -> RegistryView {
        RegistryView {
            owner: self.owner@,
            admin: self.admin@,
            projects: self.projects@.map_values(|p: Project| p@),
        }
    }
}

impl Default for ProjectRegistry {
    /// An empty registry whose owner and admin are both `DEFAULT_ACCOUNT`.
    fn default() -> (r: Self)
        ensures
            r@.owner == DEFAULT_ACCOUNT@,
            r@.admin == DEFAULT_ACCOUNT@,
            r@.projects == Seq::<ProjectView>::empty(),
    {
        proof {
            reveal_strlit("social.near");
        }
        assert(valid_account_id(DEFAULT_ACCOUNT@));
        let owner = AccountId::parse(DEFAULT_ACCOUNT).unwrap();
        let admin = AccountId::parse(DEFAULT_ACCOUNT).unwrap();
        let r = ProjectRegistry { owner, admin, projects: Vec::new() };
        assert(r@.projects =~= Seq::<ProjectView>::empty());
        r
    }
}

impl ProjectRegistry {
    /// A registry with the given roles and projects; one account may hold both roles.
    pub fn new(owner: AccountId, admin: AccountId, projects: Vec<Project>) -> (r: ProjectRegistry)
        ensures
            r@ == (RegistryView {
                owner: owner@,
                admin: admin@,
                projects: projects@.map_values(|p: Project| p@),
            }),
    {
        ProjectRegistry { owner, admin, projects }
    }

    /// The account that may add and rewrite projects.
    pub fn owner(&self) -> (r: &AccountId)
        ensures
            r@ == self@.owner,
    {
        &self.owner
    }

    /// The account that may verify and remove projects.
    pub fn admin(&self) -> (r: &AccountId)
        ensures
            r@ == self@.admin,
    {
        &self.admin
    }

    /// The owner alone may go on.
    fn check_owner(&self, caller: &AccountId) -> (r: Result<(), RegistryError>)
        ensures
            r == self@.owner_outcome(caller@),
    {
        if caller.same_as(&self.owner) {
            Ok(())
        } else {
            Err(RegistryError::Unauthorized)
        }
    }

    /// The admin alone may go on, and only where `index` names a project.
    fn check_admin_at(&self, caller: &AccountId, index: usize) -> (r: Result<(), RegistryError>)
        ensures
            r == self@.indexed_outcome(self@.admin, caller@, index as int),
    {
        if !caller.same_as(&self.admin) {
            Err(RegistryError::Unauthorized)
        } else if index >= self.projects.len() {
            Err(RegistryError::IndexOutOfRange)
        } else {
            Ok(())
        }
    }

    /// Appends a project made of the given fields; the owner alone may.
    pub fn add_project(
        &mut self,
        caller: &AccountId,
        name: String,
        description: String,
        link: String,
        verified: bool,
        category: String,
        tags: Vec<String>,
        metadata: String,
    ) -> (r: Result<(), RegistryError>)
        ensures
            r == old(self)@.owner_outcome(caller@),
            final(self)@ == old(self)@.after_add(
                caller@,
                ProjectView {
                    name: name@,
                    description: description@,
                    link: link@,
                    verified,
                    category: category@,
                    tags: tags_view(tags@),
                    metadata: metadata@,
                },
            ),
    {
        let checked = self.check_owner(caller);
        if checked.is_err() {
            return checked;
        }
        let project = Project::new(name, description, link, verified, category, tags, metadata);
        self.projects.push(project);
        assert(self@.projects =~= old(self)@.projects.push(project@));
        Ok(())
    }

    /// Puts a project made of the given fields in place of the one at `index`,
    /// `verified` included; the owner alone may.
    pub fn update_project(
        &mut self,
        caller: &AccountId,
        index: usize,
        name: String,
        description: String,
        link: String,
        verified: bool,
        category: String,
        tags: Vec<String>,
        metadata: String,
    ) -> (r: Result<(), RegistryError>)
        ensures
            r == old(self)@.indexed_outcome(old(self)@.owner, caller@, index as int),
            final(self)@ == old(self)@.after_update(
                caller@,
                index as int,
                ProjectView {
                    name: name@,
                    description: description@,
                    link: link@,
                    verified,
                    category: category@,
                    tags: tags_view(tags@),
                    metadata: metadata@,
                },
            ),
    {
        let checked = self.check_owner(caller);
        if checked.is_err() {
            return checked;
        }
        if index >= self.projects.len() {
            return Err(RegistryError::IndexOutOfRange);
        }
        let project = Project::new(name, description, link, verified, category, tags, metadata);
        self.projects.set(index, project);
        assert(self@.projects =~= old(self)@.projects.update(index as int, project@));
        Ok(())
    }

    /// Marks the project at `index` verified; the admin alone may.
    pub fn verify_project(&mut self, caller: &AccountId, index: usize) -> (r: Result<
        (),
        RegistryError,
    >)
        ensures
            r == old(self)@.indexed_outcome(old(self)@.admin, caller@, index as int),
            final(self)@ == old(self)@.after_verify(caller@, index as int),
    {
        let checked = self.check_admin_at(caller, index);
        if checked.is_err() {
            return checked;
        }
        self.mark_verified_at(index);
        Ok(())
    }

    /// Marks the project at `index` verified.
    fn mark_verified_at(&mut self, index: usize)
        requires
            index < old(self)@.projects.len(),
        ensures
            final(self)@ == old(self)@.with_projects(
                old(self)@.projects.update(index as int, old(self)@.projects[index as int].mark_verified()),
            ),
    {
        let mut project = self.projects[index].duplicate();
        project.verified = true;
        self.projects.set(index, project);
        assert(self@.projects =~= old(self)@.projects.update(
            index as int,
            old(self)@.projects[index as int].mark_verified(),
        ));
    }

    /// Marks the projects at `indexes` verified; the admin alone may. Where one
    /// index names no project, none is marked.
    pub fn verify_projects(&mut self, caller: &AccountId, indexes: Vec<usize>) -> (r: Result<
        (),
        RegistryError,
    >)
        ensures
            r == old(self)@.verify_all_outcome(caller@, indexes@),
            final(self)@ == old(self)@.after_verify_all(caller@, indexes@),
    {
        let checked = self.check_admin(caller);
        if checked.is_err() {
            return checked;
        }
        let len = self.projects.len();
        let mut k: usize = 0;
        while k < indexes.len()
            invariant
                k <= indexes@.len(),
                self@ == old(self)@,
                caller@ == self@.admin,
                len == self@.projects.len(),
                forall|m: int| 0 <= m < k ==> #[trigger] indexes@[m] < len,
            decreases indexes@.len() - k,
        {
            if indexes[k] >= len {
                assert(indexes@[k as int] >= old(self)@.projects.len());
                return Err(RegistryError::IndexOutOfRange);
            }
            k = k + 1;
        }
        let mut k: usize = 0;
        while k < indexes.len()
            invariant
                k <= indexes@.len(),
                forall|m: int| 0 <= m < indexes@.len() ==> #[trigger] indexes@[m] < len,
                len == old(self)@.projects.len(),
                caller@ == old(self)@.admin,
                self@.owner == old(self)@.owner,
                self@.admin == old(self)@.admin,
                self@.projects.len() == len,
                forall|j: int|
                    0 <= j < len ==> #[trigger] self@.projects[j] == if indexes@.subrange(
                        0,
                        k as int,
                    ).contains(j as usize) {
                        old(self)@.projects[j].mark_verified()
                    } else {
                        old(self)@.projects[j]
                    },
            decreases indexes@.len() - k,
        {
            let index = indexes[k];
            self.mark_verified_at(index);
            proof {
                let done = indexes@.subrange(0, k as int);
                let next = indexes@.subrange(0, k + 1);
                assert(next =~= done.push(index));
                assert forall|j: int| 0 <= j < len implies #[trigger] next.contains(j as usize) == (
                done.contains(j as usize) || j == index) by {
                    if j == index {
                        assert(next[k as int] == index);
                    }
                    if done.contains(j as usize) {
                        let m = choose|m: int| 0 <= m < done.len() && done[m] == j as usize;
                        assert(next[m] == j as usize);
                    }
                }
            }
            k = k + 1;
        }
        proof {
            assert(indexes@.subrange(0, indexes@.len() as int) =~= indexes@);
            assert(self@.projects =~= old(self)@.after_verify_all(caller@, indexes@).projects);
        }
        Ok(())
    }

    /// The admin alone may go on.
    fn check_admin(&self, caller: &AccountId) -> (r: Result<(), RegistryError>)
        ensures
            r == (if caller@ != self@.admin {
                Err(RegistryError::Unauthorized)
            } else {
                Ok(())
            }),
    {
        if caller.same_as(&self.admin) {
            Ok(())
        } else {
            Err(RegistryError::Unauthorized)
        }
    }

    /// A copy of every project, in order.
    pub fn list_projects(&self) -> (r: Vec<Project>)
        ensures
            r@.map_values(|p: Project| p@) == self@.projects,
    {
        let mut r: Vec<Project> = Vec::new();
        let mut i: usize = 0;
        while i < self.projects.len()
            invariant
                i <= self.projects@.len(),
                r@.len() == i,
                forall|j: int| 0 <= j < i ==> #[trigger] r@[j]@ == self.projects@[j]@,
            decreases self.projects@.len() - i,
        {
            let p = self.projects[i].duplicate();
            r.push(p);
            i = i + 1;
        }
        assert(r@.map_values(|p: Project| p@) =~= self@.projects);
        r
    }

    /// A copy of the project at `index`; `None` where there is none.
    pub fn get_project(&self, index: usize) -> (r: Option<Project>)
        ensures
            r matches Some(p) ==> self@.project_at(index as int) == Some(p@),
            r is None ==> self@.project_at(index as int) is None,
    {
        if index < self.projects.len() {
            Some(self.projects[index].duplicate())
        } else {
            None
        }
    }

    /// Removes the project at `index`; those after it move one place forward.
    /// The admin alone may.
    pub fn remove_project(&mut self, caller: &AccountId, index: usize) -> (r: Result<
        (),
        RegistryError,
    >)
        ensures
            r == old(self)@.indexed_outcome(old(self)@.admin, caller@, index as int),
            final(self)@ == old(self)@.after_remove(caller@, index as int),
    {
        let checked = self.check_admin_at(caller, index);
        if checked.is_err() {
            return checked;
        }
        self.projects.remove(index);
        assert(self@.projects =~= old(self)@.projects.remove(index as int));
        Ok(())
    }
}

} // verus!
