use project_registry::{AccountId, Project, ProjectRegistry, RegistryError, DEFAULT_ACCOUNT};

fn account(s: &str) -> AccountId {
    AccountId::parse(s).expect("a well-formed account id")
}

fn sample(n: u32, verified: bool) -> Project {
    Project::new(
        format!("project {}", n),
        format!("description {}", n),
        format!("https://example.org/{}", n),
        verified,
        String::from("tools"),
        vec![format!("tag{}", n), String::from("near")],
        format!("{{\"n\":{}}}", n),
    )
}

fn add(reg: &mut ProjectRegistry, caller: &AccountId, p: &Project) -> Result<(), RegistryError> {
    reg.add_project(
        caller,
        p.name.clone(),
        p.description.clone(),
        p.link.clone(),
        p.verified,
        p.category.clone(),
        p.tags.clone(),
        p.metadata.clone(),
    )
}

fn update(
    reg: &mut ProjectRegistry,
    caller: &AccountId,
    index: usize,
    p: &Project,
) -> Result<(), RegistryError> {
    reg.update_project(
        caller,
        index,
        p.name.clone(),
        p.description.clone(),
        p.link.clone(),
        p.verified,
        p.category.clone(),
        p.tags.clone(),
        p.metadata.clone(),
    )
}

/// Owner `owner.near`, admin `admin.near`, holding three unverified projects.
fn split_roles() -> ProjectRegistry {
    let mut reg = ProjectRegistry::new(account("owner.near"), account("admin.near"), Vec::new());
    for n in 0..3 {
        assert_eq!(add(&mut reg, &account("owner.near"), &sample(n, false)), Ok(()));
    }
    reg
}

#[test]
fn default_registry_is_empty_with_one_account_in_both_roles() {
    let reg = ProjectRegistry::default();
    assert_eq!(reg.owner().as_str(), "social.near");
    assert_eq!(reg.admin().as_str(), DEFAULT_ACCOUNT);
    assert!(reg.list_projects().is_empty());
    assert_eq!(reg.get_project(0), None);
}

#[test]
fn adds_keep_insertion_order() {
    let owner = account(DEFAULT_ACCOUNT);
    let mut reg = ProjectRegistry::default();
    for n in 0..4 {
        assert_eq!(add(&mut reg, &owner, &sample(n, n % 2 == 0)), Ok(()));
    }
    let all = reg.list_projects();
    assert_eq!(all.len(), 4);
    for n in 0..4u32 {
        assert_eq!(all[n as usize], sample(n, n % 2 == 0));
        assert_eq!(reg.get_project(n as usize), Some(sample(n, n % 2 == 0)));
    }
    assert_eq!(reg.get_project(4), None);
}

#[test]
fn added_project_may_start_verified() {
    let owner = account(DEFAULT_ACCOUNT);
    let mut reg = ProjectRegistry::default();
    assert_eq!(add(&mut reg, &owner, &sample(7, true)), Ok(()));
    assert!(reg.get_project(0).unwrap().verified);
}

#[test]
fn strangers_are_refused_everything() {
    let mut reg = split_roles();
    let before = reg.list_projects();
    let stranger = account("mallory.near");
    assert_eq!(add(&mut reg, &stranger, &sample(9, true)), Err(RegistryError::Unauthorized));
    assert_eq!(update(&mut reg, &stranger, 0, &sample(9, true)), Err(RegistryError::Unauthorized));
    assert_eq!(reg.verify_project(&stranger, 0), Err(RegistryError::Unauthorized));
    assert_eq!(reg.verify_projects(&stranger, vec![0, 1]), Err(RegistryError::Unauthorized));
    assert_eq!(reg.remove_project(&stranger, 0), Err(RegistryError::Unauthorized));
    assert_eq!(reg.list_projects(), before);
}

#[test]
fn roles_do_not_stand_in_for_each_other() {
    let mut reg = split_roles();
    let before = reg.list_projects();
    let owner = account("owner.near");
    let admin = account("admin.near");
    assert_eq!(reg.verify_project(&owner, 0), Err(RegistryError::Unauthorized));
    assert_eq!(reg.verify_projects(&owner, vec![0]), Err(RegistryError::Unauthorized));
    assert_eq!(reg.remove_project(&owner, 0), Err(RegistryError::Unauthorized));
    assert_eq!(add(&mut reg, &admin, &sample(5, false)), Err(RegistryError::Unauthorized));
    assert_eq!(update(&mut reg, &admin, 0, &sample(5, false)), Err(RegistryError::Unauthorized));
    assert_eq!(reg.list_projects(), before);
}

#[test]
fn unauthorized_comes_before_a_bad_index() {
    let mut reg = split_roles();
    let stranger = account("mallory.near");
    assert_eq!(update(&mut reg, &stranger, 10, &sample(1, false)), Err(RegistryError::Unauthorized));
    assert_eq!(reg.verify_project(&stranger, 10), Err(RegistryError::Unauthorized));
    assert_eq!(reg.verify_projects(&stranger, vec![10]), Err(RegistryError::Unauthorized));
    assert_eq!(reg.remove_project(&stranger, 10), Err(RegistryError::Unauthorized));
}

#[test]
fn update_replaces_only_its_index() {
    let mut reg = split_roles();
    let owner = account("owner.near");
    assert_eq!(update(&mut reg, &owner, 1, &sample(42, true)), Ok(()));
    let all = reg.list_projects();
    assert_eq!(all.len(), 3);
    assert_eq!(all[0], sample(0, false));
    assert_eq!(all[1], sample(42, true));
    assert_eq!(all[2], sample(2, false));
}

#[test]
fn bad_indexes_are_out_of_range() {
    let mut reg = split_roles();
    let before = reg.list_projects();
    let owner = account("owner.near");
    let admin = account("admin.near");
    assert_eq!(update(&mut reg, &owner, 3, &sample(1, true)), Err(RegistryError::IndexOutOfRange));
    assert_eq!(reg.verify_project(&admin, 3), Err(RegistryError::IndexOutOfRange));
    assert_eq!(reg.remove_project(&admin, usize::MAX), Err(RegistryError::IndexOutOfRange));
    assert_eq!(reg.list_projects(), before);
    assert_eq!(reg.get_project(3), None);
}

#[test]
fn verify_twice_is_verify_once() {
    let admin = account("admin.near");
    let mut once = split_roles();
    let mut twice = split_roles();
    assert_eq!(once.verify_project(&admin, 2), Ok(()));
    assert_eq!(twice.verify_project(&admin, 2), Ok(()));
    assert_eq!(twice.verify_project(&admin, 2), Ok(()));
    assert_eq!(once.list_projects(), twice.list_projects());
    assert!(twice.get_project(2).unwrap().verified);
    assert!(!twice.get_project(1).unwrap().verified);
}

#[test]
fn verify_projects_marks_each_listed_index() {
    let mut reg = split_roles();
    let admin = account("admin.near");
    assert_eq!(reg.verify_projects(&admin, vec![2, 0, 2]), Ok(()));
    let flags: Vec<bool> = reg.list_projects().iter().map(|p| p.verified).collect();
    assert_eq!(flags, vec![true, false, true]);
    assert_eq!(reg.verify_projects(&admin, Vec::new()), Ok(()));
}

#[test]
fn verify_projects_with_one_bad_index_marks_none() {
    let mut reg = split_roles();
    let before = reg.list_projects();
    let admin = account("admin.near");
    assert_eq!(reg.verify_projects(&admin, vec![0, 1, 3]), Err(RegistryError::IndexOutOfRange));
    assert_eq!(reg.verify_projects(&admin, vec![0, 7, 2]), Err(RegistryError::IndexOutOfRange));
    assert_eq!(reg.list_projects(), before);
    assert!(reg.list_projects().iter().all(|p| !p.verified));
}

#[test]
fn remove_shifts_later_projects_forward() {
    let mut reg = split_roles();
    let admin = account("admin.near");
    assert_eq!(reg.remove_project(&admin, 0), Ok(()));
    let all = reg.list_projects();
    assert_eq!(all.len(), 2);
    assert_eq!(all[0], sample(1, false));
    assert_eq!(all[1], sample(2, false));
    assert_eq!(reg.get_project(2), None);
    assert_eq!(reg.remove_project(&admin, 1), Ok(()));
    assert_eq!(reg.list_projects(), vec![sample(1, false)]);
}

#[test]
fn verify_then_update_is_a_full_overwrite() {
    let account_a = account(DEFAULT_ACCOUNT);
    let mut reg = ProjectRegistry::default();
    assert_eq!(add(&mut reg, &account_a, &sample(1, false)), Ok(()));
    assert_eq!(reg.verify_project(&account_a, 0), Ok(()));
    assert!(reg.get_project(0).unwrap().verified);
    let fresh = Project::new(
        String::from("renamed"),
        String::from("new text"),
        String::from("https://example.org/new"),
        false,
        String::from("games"),
        vec![String::from("fresh")],
        String::from("{}"),
    );
    assert_eq!(update(&mut reg, &account_a, 0, &fresh), Ok(()));
    let got = reg.get_project(0).unwrap();
    assert_eq!(got, fresh);
    assert!(!got.verified);
}

#[test]
fn duplicate_copies_every_field() {
    let p = sample(3, true);
    assert_eq!(p.duplicate(), p);
}

#[test]
fn account_ids_follow_the_grammar() {
    for ok in ["social.near", "ab", "a-b_c.d", "0x1", "a1.b2.c3"] {
        let a = AccountId::parse(ok).unwrap();
        assert_eq!(a.as_str(), ok);
    }
    let longest = "a".repeat(64);
    assert!(AccountId::parse(&longest).is_some());
    for bad in ["", "a", "Social.near", ".near", "near.", "a..b", "a-_b", "a b", "ƒoo.near"] {
        assert!(AccountId::parse(bad).is_none(), "{}", bad);
    }
    assert!(AccountId::parse(&"a".repeat(65)).is_none());
}

#[test]
fn same_as_compares_the_text() {
    let a = account("alice.near");
    assert!(a.same_as(&account("alice.near")));
    assert!(!a.same_as(&account("bob.near")));
    assert!(a.duplicate().same_as(&a));
}
