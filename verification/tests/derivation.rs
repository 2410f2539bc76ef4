use anchor_lang::solana_program::pubkey::Pubkey;
use trustfund::derivation::{
    build_vault_signer_seeds, found_at, found_at_with_bump, milestone_address, project_address,
    vault_authority_address, vault_token_address, MILESTONE_LABEL, PROJECT_LABEL,
    VAULT_AUTHORITY_LABEL, VAULT_TOKEN_LABEL,
};
use trustfund::{
    Account, AddMilestone, Address, Authority, InitializeProject, Milestone, MilestoneStatus,
    Project, ProjectStatus, ReleaseFunds, TokenAccount,
};

fn addr(n: u8) -> Address {
    Address { bytes: [n; 32] }
}

fn key(address: &Address) -> Pubkey {
    Pubkey::new_from_array(address.bytes)
}

fn expected(seeds: &[&[u8]], program: &Address) -> Option<(Address, u8)> {
    Pubkey::try_find_program_address(seeds, &key(program))
        .map(|(found, bump)| (Address { bytes: found.to_bytes() }, bump))
}

const PROGRAM: u8 = 77;

#[test]
fn labels_spell_their_names() {
    assert_eq!(&PROJECT_LABEL, b"project");
    assert_eq!(&VAULT_TOKEN_LABEL, b"vault_token");
    assert_eq!(&VAULT_AUTHORITY_LABEL, b"vault_auth");
    assert_eq!(&MILESTONE_LABEL, b"milestone");
}

#[test]
fn project_address_is_derived_from_the_owner() {
    for owner in [0u8, 1, 2, 200, 255] {
        let found = project_address(&addr(owner), &addr(PROGRAM));
        assert!(found.is_some());
        assert_eq!(found, expected(&[b"project", &[owner; 32]], &addr(PROGRAM)));
        let (address, _) = found.unwrap();
        assert_ne!(address, addr(owner));
        assert_ne!(address, addr(PROGRAM));
    }
    assert_ne!(project_address(&addr(1), &addr(PROGRAM)), project_address(&addr(2), &addr(PROGRAM)));
    assert_ne!(project_address(&addr(1), &addr(PROGRAM)), project_address(&addr(1), &addr(78)));
}

#[test]
fn vault_and_authority_are_derived_from_the_project() {
    let project = addr(10);
    let vault = vault_token_address(&project, &addr(PROGRAM));
    let authority = vault_authority_address(&project, &addr(PROGRAM));
    assert_eq!(vault, expected(&[b"vault_token", &[10; 32]], &addr(PROGRAM)));
    assert_eq!(authority, expected(&[b"vault_auth", &[10; 32]], &addr(PROGRAM)));
    assert_ne!(vault.unwrap().0, authority.unwrap().0);
}

#[test]
fn milestone_address_is_derived_from_project_and_number() {
    let project = addr(10);
    for id in [0u8, 1, 7, 255] {
        let found = milestone_address(&project, id, &addr(PROGRAM));
        assert_eq!(found, expected(&[b"milestone", &[10; 32], &[id]], &addr(PROGRAM)));
    }
    assert_ne!(
        milestone_address(&project, 0, &addr(PROGRAM)),
        milestone_address(&project, 1, &addr(PROGRAM))
    );
    assert_ne!(
        milestone_address(&project, 0, &addr(PROGRAM)),
        milestone_address(&addr(11), 0, &addr(PROGRAM))
    );
}

#[test]
fn derivation_is_repeatable() {
    let first = vault_authority_address(&addr(10), &addr(PROGRAM));
    let second = vault_authority_address(&addr(10), &addr(PROGRAM));
    assert_eq!(first, second);
}

#[test]
fn signer_seeds_recreate_the_vault_authority() {
    let project = addr(10);
    let (authority, bump) = vault_authority_address(&project, &addr(PROGRAM)).unwrap();
    let seeds = build_vault_signer_seeds(&project, bump);
    assert_eq!(seeds, vec![b"vault_auth".to_vec(), vec![10u8; 32], vec![bump]]);
    let parts: Vec<&[u8]> = seeds.iter().map(|seed| seed.as_slice()).collect();
    let recreated = Pubkey::create_program_address(&parts, &key(&addr(PROGRAM))).unwrap();
    assert_eq!(recreated.to_bytes(), authority.bytes);

    let signing = Authority::Vault { address: authority, project, bump };
    assert_eq!(signing.signer_seeds(), seeds);
    assert_eq!(signing.address(), authority);
}

#[test]
fn found_at_compares_what_was_found() {
    assert!(found_at(&Some((addr(1), 255)), &addr(1)));
    assert!(found_at(&Some((addr(1), 0)), &addr(1)));
    assert!(!found_at(&Some((addr(1), 255)), &addr(2)));
    assert!(!found_at(&None, &addr(1)));
    assert!(found_at_with_bump(&Some((addr(1), 255)), &addr(1), 255));
    assert!(!found_at_with_bump(&Some((addr(1), 255)), &addr(1), 254));
    assert!(!found_at_with_bump(&Some((addr(1), 255)), &addr(2), 255));
    assert!(!found_at_with_bump(&None, &addr(1), 255));
}

fn project_record(client: u8) -> Project {
    Project {
        client: addr(client),
        freelancer: None,
        status: ProjectStatus::Created,
        project_id: String::from("job-1"),
    }
}

fn token_account(address: Address, owner: Address) -> TokenAccount {
    TokenAccount { address, mint: addr(30), owner }
}

#[test]
fn initialize_accounts_are_checked_against_their_derivations() {
    let program = addr(PROGRAM);
    let (project, _) = project_address(&addr(1), &program).unwrap();
    let (vault, _) = vault_token_address(&project, &program).unwrap();
    let (authority, _) = vault_authority_address(&project, &program).unwrap();
    let good = InitializeProject {
        client: addr(1),
        project: Account { address: project, data: project_record(1) },
        vault_token_account: token_account(vault, authority),
        vault_authority: authority,
        mint: addr(30),
    };
    assert!(good.check_addresses(&program));
    assert!(!good.check_addresses(&addr(78)));

    let mut other_client = good.clone();
    other_client.client = addr(2);
    assert!(!other_client.check_addresses(&program));

    let mut other_project = good.clone();
    other_project.project.address = addr(10);
    assert!(!other_project.check_addresses(&program));

    let mut other_vault = good.clone();
    other_vault.vault_token_account.address = authority;
    assert!(!other_vault.check_addresses(&program));

    let mut other_authority = good.clone();
    other_authority.vault_authority = vault;
    assert!(!other_authority.check_addresses(&program));
}

#[test]
fn add_milestone_accounts_are_checked_against_their_derivations() {
    let program = addr(PROGRAM);
    let project = addr(10);
    let (vault, _) = vault_token_address(&project, &program).unwrap();
    let (milestone, _) = milestone_address(&project, 3, &program).unwrap();
    let good = AddMilestone {
        client: addr(1),
        project: Account { address: project, data: project_record(1) },
        milestone: Account {
            address: milestone,
            data: Milestone {
                project,
                milestone_id: 3,
                amount: 0,
                status: MilestoneStatus::Pending,
            },
        },
        client_token_account: token_account(addr(40), addr(1)),
        vault_token_account: token_account(vault, addr(21)),
    };
    assert!(good.check_addresses(&program, 3));
    assert!(!good.check_addresses(&program, 4));
    assert!(!good.check_addresses(&addr(78), 3));

    let mut other_vault = good.clone();
    other_vault.vault_token_account.address = addr(20);
    assert!(!other_vault.check_addresses(&program, 3));

    let mut other_milestone = good.clone();
    other_milestone.milestone.address = vault;
    assert!(!other_milestone.check_addresses(&program, 3));
}

#[test]
fn release_accounts_are_checked_against_their_derivations() {
    let program = addr(PROGRAM);
    let project = addr(10);
    let (vault, _) = vault_token_address(&project, &program).unwrap();
    let (authority, bump) = vault_authority_address(&project, &program).unwrap();
    let good = ReleaseFunds {
        client: addr(1),
        vault_token_account: token_account(vault, authority),
        vault_authority: authority,
        vault_authority_bump: bump,
        project: Account { address: project, data: project_record(1) },
        milestone: Account {
            address: addr(50),
            data: Milestone {
                project,
                milestone_id: 0,
                amount: 100,
                status: MilestoneStatus::Pending,
            },
        },
        freelancer_token_account: token_account(addr(41), addr(2)),
    };
    assert!(good.check_addresses(&program));
    assert!(!good.check_addresses(&addr(78)));

    let mut other_bump = good.clone();
    other_bump.vault_authority_bump = bump.wrapping_sub(1);
    assert!(!other_bump.check_addresses(&program));

    let mut other_authority = good.clone();
    other_authority.vault_authority = addr(21);
    assert!(!other_authority.check_addresses(&program));

    let mut other_vault = good.clone();
    other_vault.vault_token_account.address = addr(20);
    assert!(!other_vault.check_addresses(&program));

    let mut other_project = good.clone();
    other_project.project.address = addr(11);
    assert!(!other_project.check_addresses(&program));
}
