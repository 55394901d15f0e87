use payroll_escrow::breaker::switch;
use payroll_escrow::employee::count_active;
use payroll_escrow::{Address, Employee, EmployeeStatus, Error, Event, PayrollEscrowContract};

fn addr(key: &str) -> Address {
    Address::from_str(key)
}

fn hire(contract: &mut PayrollEscrowContract, employer: &str, name: &str, now: u64) -> Result<u64, Error> {
    contract.add_employee(
        addr(employer),
        addr(name),
        format!("{}@example.com", name),
        name.to_string(),
        "Doe".to_string(),
        "Engineer".to_string(),
        5000,
        "USDC".to_string(),
        "monthly".to_string(),
        now,
    )
}

fn entry(id: u64, employer: &str, status: EmployeeStatus) -> Employee {
    Employee {
        id,
        employer: addr(employer),
        wallet_address: addr("wallet"),
        email: "e@example.com".to_string(),
        first_name: "E".to_string(),
        last_name: "F".to_string(),
        position: "p".to_string(),
        salary: 1,
        currency: "USDC".to_string(),
        payment_schedule: "weekly".to_string(),
        status,
        created_at: 0,
        updated_at: 0,
    }
}

#[test]
fn register_fills_every_field() {
    let e = Employee::register(
        false,
        3,
        addr("employer"),
        addr("wallet"),
        "a@b.c".to_string(),
        "Ann".to_string(),
        "Bee".to_string(),
        "Clerk".to_string(),
        1234,
        "XLM".to_string(),
        "bi-weekly".to_string(),
        77,
    )
    .unwrap();
    assert_eq!(
        e,
        Employee {
            id: 3,
            employer: addr("employer"),
            wallet_address: addr("wallet"),
            email: "a@b.c".to_string(),
            first_name: "Ann".to_string(),
            last_name: "Bee".to_string(),
            position: "Clerk".to_string(),
            salary: 1234,
            currency: "XLM".to_string(),
            payment_schedule: "bi-weekly".to_string(),
            status: EmployeeStatus::Active,
            created_at: 77,
            updated_at: 77,
        }
    );
}

#[test]
fn register_is_refused_while_the_breaker_is_active() {
    let r = Employee::register(
        true,
        1,
        addr("employer"),
        addr("wallet"),
        String::new(),
        String::new(),
        String::new(),
        String::new(),
        0,
        String::new(),
        String::new(),
        0,
    );
    assert_eq!(r, Err(Error::CircuitBreakerActive));
}

#[test]
fn update_replaces_only_what_is_given() {
    let mut e = entry(1, "employer", EmployeeStatus::Active);
    let before = e.clone();
    assert_eq!(e.update(&addr("employer"), None, None, None, None, 9), Ok(()));
    assert_eq!(e, Employee { updated_at: 9, ..before.clone() });

    assert_eq!(
        e.update(
            &addr("employer"),
            Some(10),
            Some("Lead".to_string()),
            Some("monthly".to_string()),
            Some(EmployeeStatus::Inactive),
            11
        ),
        Ok(())
    );
    assert_eq!(
        e,
        Employee {
            salary: 10,
            position: "Lead".to_string(),
            payment_schedule: "monthly".to_string(),
            status: EmployeeStatus::Inactive,
            updated_at: 11,
            ..before
        }
    );
}

#[test]
fn update_and_terminate_are_for_the_owner_only() {
    let mut e = entry(1, "employer", EmployeeStatus::Active);
    let before = e.clone();
    assert_eq!(e.update(&addr("other"), Some(10), None, None, None, 9), Err(Error::NotAuthorized));
    assert_eq!(e.terminate(&addr("other"), 9), Err(Error::NotAuthorized));
    assert_eq!(e, before);
    assert_eq!(e.terminate(&addr("employer"), 9), Ok(()));
    assert_eq!(e, Employee { status: EmployeeStatus::Terminated, updated_at: 9, ..before });
}

#[test]
fn count_active_counts_only_active_entries() {
    assert_eq!(count_active(&vec![]), 0);
    let entries = vec![
        entry(1, "a", EmployeeStatus::Active),
        entry(2, "a", EmployeeStatus::Inactive),
        entry(3, "b", EmployeeStatus::Active),
        entry(4, "a", EmployeeStatus::Terminated),
        entry(5, "a", EmployeeStatus::Active),
    ];
    assert_eq!(count_active(&entries), 3);
}

#[test]
fn roster_is_kept_per_employer_in_order_of_entry() {
    let mut contract = PayrollEscrowContract::initialize(addr("admin"));
    assert_eq!(hire(&mut contract, "acme", "ann", 1), Ok(1));
    assert_eq!(hire(&mut contract, "globex", "bob", 2), Ok(2));
    assert_eq!(hire(&mut contract, "acme", "cid", 3), Ok(3));
    assert_eq!(contract.employee_counter(), 3);

    let acme = contract.get_employer_employees(addr("acme")).unwrap();
    assert_eq!(acme.iter().map(|e| e.id).collect::<Vec<u64>>(), vec![1, 3]);
    assert_eq!(acme[1].first_name, "cid");
    assert_eq!(acme[1].created_at, 3);
    assert_eq!(acme[1].status, EmployeeStatus::Active);
    let globex = contract.get_employer_employees(addr("globex")).unwrap();
    assert_eq!(globex.iter().map(|e| e.id).collect::<Vec<u64>>(), vec![2]);
    assert_eq!(contract.get_employer_employees(addr("nobody")), Ok(vec![]));

    assert_eq!(contract.get_employee_count(addr("acme")), 2);
    assert_eq!(contract.get_employee_count(addr("globex")), 1);
    assert_eq!(contract.get_employee_count(addr("nobody")), 0);

    assert_eq!(contract.get_employee(2).unwrap().employer, addr("globex"));
    assert_eq!(contract.get_employee(2).unwrap().id, 2);
    assert_eq!(contract.get_employee(4), Err(Error::PayrollNotFound));
    assert_eq!(contract.get_employee(0), Err(Error::PayrollNotFound));
}

#[test]
fn removing_keeps_the_entry_and_lowers_the_count() {
    let mut contract = PayrollEscrowContract::initialize(addr("admin"));
    hire(&mut contract, "acme", "ann", 1).unwrap();
    hire(&mut contract, "acme", "bob", 2).unwrap();
    assert_eq!(contract.remove_employee(addr("globex"), 1, 5), Err(Error::NotAuthorized));
    assert_eq!(contract.get_employee_count(addr("acme")), 2);
    assert_eq!(contract.remove_employee(addr("acme"), 1, 5), Ok(()));
    assert_eq!(contract.get_employee_count(addr("acme")), 1);
    let roster = contract.get_employer_employees(addr("acme")).unwrap();
    assert_eq!(roster.len(), 2);
    assert_eq!(roster[0].status, EmployeeStatus::Terminated);
    assert_eq!(roster[0].updated_at, 5);
    assert_eq!(roster[0].created_at, 1);
    assert_eq!(roster[1].status, EmployeeStatus::Active);
}

#[test]
fn updating_through_the_contract() {
    let mut contract = PayrollEscrowContract::initialize(addr("admin"));
    hire(&mut contract, "acme", "ann", 1).unwrap();
    contract.take_events();
    assert_eq!(
        contract.update_employee(addr("globex"), 1, Some(1), None, None, None, 2),
        Err(Error::NotAuthorized)
    );
    assert_eq!(contract.get_employee(1).unwrap().salary, 5000);
    assert_eq!(
        contract.update_employee(
            addr("acme"),
            1,
            Some(6000),
            None,
            None,
            Some(EmployeeStatus::Inactive),
            3
        ),
        Ok(())
    );
    let e = contract.get_employee(1).unwrap();
    assert_eq!(e.salary, 6000);
    assert_eq!(e.position, "Engineer");
    assert_eq!(e.status, EmployeeStatus::Inactive);
    assert_eq!(e.updated_at, 3);
    assert_eq!(contract.get_employee_count(addr("acme")), 0);
    assert_eq!(contract.update_employee(addr("acme"), 1, None, None, None, None, 4), Ok(()));
    assert_eq!(
        contract.take_events(),
        vec![
            Event::EmployeeUpdated { employee_id: 1, employer: addr("acme"), salary: 6000 },
            Event::EmployeeUpdated { employee_id: 1, employer: addr("acme"), salary: 6000 },
        ]
    );
}

#[test]
fn breaker_stops_new_employees_only() {
    let admin = addr("admin");
    let mut contract = PayrollEscrowContract::initialize(admin.clone());
    hire(&mut contract, "acme", "ann", 1).unwrap();
    contract.toggle_circuit_breaker(admin.clone()).unwrap();
    contract.take_events();
    assert_eq!(hire(&mut contract, "acme", "bob", 2), Err(Error::CircuitBreakerActive));
    assert_eq!(contract.employee_counter(), 1);
    assert!(contract.events().is_empty());
    assert_eq!(contract.update_employee(addr("acme"), 1, Some(1), None, None, None, 3), Ok(()));
    assert_eq!(contract.remove_employee(addr("acme"), 1, 4), Ok(()));
    contract.toggle_circuit_breaker(admin).unwrap();
    contract.take_events();
    assert_eq!(hire(&mut contract, "acme", "bob", 5), Ok(2));
    assert_eq!(
        contract.take_events(),
        vec![Event::EmployeeAdded {
            employee_id: 2,
            employer: addr("acme"),
            wallet_address: addr("bob"),
            email: "bob@example.com".to_string(),
            salary: 5000,
        }]
    );
    let topics = [
        Event::EmployeeAdded {
            employee_id: 0,
            employer: addr("a"),
            wallet_address: addr("b"),
            email: String::new(),
            salary: 0,
        }
        .topic(),
        Event::EmployeeUpdated { employee_id: 0, employer: addr("a"), salary: 0 }.topic(),
        Event::EmployeeTerminated { employee_id: 0, employer: addr("a") }.topic(),
        Event::PaymentReleased { payroll_id: 0, recipient: addr("a"), amount: 0 }.topic(),
        Event::PayrollCompleted { payroll_id: 0, total_amount: 0 }.topic(),
    ];
    assert_eq!(
        topics,
        [
            "employee_added",
            "employee_updated",
            "employee_terminated",
            "payment_released",
            "payroll_completed"
        ]
    );
}

#[test]
fn switching_the_breaker_is_for_the_admin() {
    let admin = addr("admin");
    assert_eq!(switch(Some(&admin), &addr("admin"), false), Ok(true));
    assert_eq!(switch(Some(&admin), &addr("admin"), true), Ok(false));
    assert_eq!(switch(Some(&admin), &addr("employer"), false), Err(Error::NotAuthorized));
    assert_eq!(switch(None, &addr("admin"), false), Err(Error::NotAuthorized));
    assert_eq!(switch(None, &addr("admin"), true), Err(Error::NotAuthorized));
}
