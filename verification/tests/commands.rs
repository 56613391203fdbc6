use product_registry::error::Error;
use product_registry::event::Event;
use product_registry::origin::Origin;
use product_registry::pallet::{Config, Pallet};
use product_registry::product::Product;

struct Test;

impl Config for Test {
    type AccountId = u64;
}

type TemplateModule = Pallet<Test>;

const A: u64 = 1;
const B: u64 = 2;

fn entry(location: &[u8], name: &[u8], custodian: u64) -> Product<u64> {
    Product { location: location.to_vec(), name: name.to_vec(), custodian }
}

fn registered(custodian: u64, identifier: &[u8]) -> Event<u64> {
    Event::ProductRegistered { custodian, identifier: identifier.to_vec() }
}

fn updated(location: &[u8]) -> Event<u64> {
    Event::LocationUpdated { location: location.to_vec() }
}

/// A module in which `A` has registered "P1" as "Dell" in "Hyd".
fn after_registration() -> TemplateModule {
    let mut module = TemplateModule::new();
    let result =
        module.add_product(Origin::signed(A), b"P1".to_vec(), b"Dell".to_vec(), b"Hyd".to_vec());
    assert_eq!(result, Ok(()));
    module
}

#[test]
fn it_stores_correctly() {
    let mut module = TemplateModule::new();
    // Dispatch a signed command.
    assert_eq!(
        module.add_product(
            Origin::signed(1),
            b"1234".to_vec(),
            b"DELL".to_vec(),
            b"Hyderabad".to_vec()
        ),
        Ok(())
    );
    // Read the registry and compare with the expected entry.
    assert_eq!(module.product_information(b"1234"), Some(&entry(b"Hyderabad", b"DELL", 1)));
    // Dispatch a signed command.
    assert_eq!(
        module.LocationUpdate(
            Origin::signed(1),
            b"1234".to_vec(),
            b"DELL".to_vec(),
            b"Bangalore".to_vec()
        ),
        Ok(())
    );
    // Read the registry and compare with the expected entry.
    assert_eq!(module.product_information(b"1234"), Some(&entry(b"Bangalore", b"DELL", 1)));
}

#[test]
fn new_module_is_empty() {
    let module = TemplateModule::new();
    assert!(!module.contains(b"P1"));
    assert_eq!(module.product_information(b"P1"), None);
    assert!(module.events().is_empty());
}

#[test]
fn register_then_read() {
    let module = after_registration();
    assert!(module.contains(b"P1"));
    assert_eq!(module.product_information(b"P1"), Some(&entry(b"Hyd", b"Dell", A)));
    assert_eq!(module.events(), &vec![registered(A, b"P1")]);
}

#[test]
fn duplicate_register_is_rejected() {
    let mut module = after_registration();
    let result =
        module.add_product(Origin::signed(B), b"P1".to_vec(), b"HP".to_vec(), b"Blr".to_vec());
    assert_eq!(result, Err(Error::ProductAlreadyExists));
    assert_eq!(module.product_information(b"P1"), Some(&entry(b"Hyd", b"Dell", A)));
    assert_eq!(module.events(), &vec![registered(A, b"P1")]);
}

#[test]
fn legitimate_update() {
    let mut module = after_registration();
    let result =
        module.LocationUpdate(Origin::signed(A), b"P1".to_vec(), b"Dell".to_vec(), b"Blr".to_vec());
    assert_eq!(result, Ok(()));
    assert_eq!(module.product_information(b"P1"), Some(&entry(b"Blr", b"Dell", A)));
    assert_eq!(module.events(), &vec![registered(A, b"P1"), updated(b"Blr")]);
}

#[test]
fn update_transfers_custody() {
    let mut module = after_registration();
    assert_eq!(
        module.LocationUpdate(
            Origin::signed(A),
            b"P1".to_vec(),
            b"Dell".to_vec(),
            b"Blr".to_vec()
        ),
        Ok(())
    );
    let result =
        module.LocationUpdate(Origin::signed(B), b"P1".to_vec(), b"Dell".to_vec(), b"Chn".to_vec());
    assert_eq!(result, Ok(()));
    assert_eq!(module.product_information(b"P1"), Some(&entry(b"Chn", b"Dell", B)));
    assert_eq!(
        module.events(),
        &vec![registered(A, b"P1"), updated(b"Blr"), updated(b"Chn")]
    );
}

#[test]
fn name_mismatch_is_rejected() {
    let mut module = after_registration();
    let result =
        module.LocationUpdate(Origin::signed(A), b"P1".to_vec(), b"HP".to_vec(), b"Blr".to_vec());
    assert_eq!(result, Err(Error::NameMismatch));
    assert_eq!(module.product_information(b"P1"), Some(&entry(b"Hyd", b"Dell", A)));
    assert_eq!(module.events(), &vec![registered(A, b"P1")]);
}

#[test]
fn update_on_unknown_is_rejected() {
    let mut module = TemplateModule::new();
    let result =
        module.LocationUpdate(Origin::signed(A), b"X".to_vec(), b"Y".to_vec(), b"Z".to_vec());
    assert_eq!(result, Err(Error::NoSuchProduct));
    assert!(!module.contains(b"X"));
    assert!(module.events().is_empty());
}

#[test]
fn unsigned_register_is_rejected() {
    let mut module = TemplateModule::new();
    let result =
        module.add_product(Origin::unsigned(), b"P1".to_vec(), b"Dell".to_vec(), b"Hyd".to_vec());
    assert_eq!(result, Err(Error::BadOrigin));
    assert!(!module.contains(b"P1"));
    assert!(module.events().is_empty());
}

#[test]
fn unsigned_update_is_rejected() {
    let mut module = after_registration();
    let result =
        module.LocationUpdate(Origin::unsigned(), b"P1".to_vec(), b"Dell".to_vec(), b"B".to_vec());
    assert_eq!(result, Err(Error::BadOrigin));
    assert_eq!(module.product_information(b"P1"), Some(&entry(b"Hyd", b"Dell", A)));
    assert_eq!(module.events(), &vec![registered(A, b"P1")]);
}

#[test]
fn bad_origin_comes_before_every_other_rejection() {
    let mut module = after_registration();
    // The identifier exists: a signed registration would be a duplicate.
    assert_eq!(
        module.add_product(Origin::unsigned(), b"P1".to_vec(), b"Dell".to_vec(), b"Hyd".to_vec()),
        Err(Error::BadOrigin)
    );
    // The identifier is unknown: a signed update would find no product.
    assert_eq!(
        module.LocationUpdate(Origin::unsigned(), b"X".to_vec(), b"Y".to_vec(), b"Z".to_vec()),
        Err(Error::BadOrigin)
    );
    // The name is wrong: a signed update would be a mismatch.
    assert_eq!(
        module.LocationUpdate(Origin::unsigned(), b"P1".to_vec(), b"HP".to_vec(), b"Z".to_vec()),
        Err(Error::BadOrigin)
    );
}

#[test]
fn unknown_product_comes_before_name_mismatch() {
    let mut module = after_registration();
    // "Dell" is the name of "P1", not of "P2", which does not exist.
    assert_eq!(
        module.LocationUpdate(Origin::signed(A), b"P2".to_vec(), b"Dell".to_vec(), b"Blr".to_vec()),
        Err(Error::NoSuchProduct)
    );
}

#[test]
fn empty_byte_strings_are_accepted() {
    let mut module = TemplateModule::new();
    assert_eq!(module.add_product(Origin::signed(A), vec![], vec![], vec![]), Ok(()));
    assert!(module.contains(b""));
    assert_eq!(module.product_information(b""), Some(&entry(b"", b"", A)));
    assert_eq!(module.LocationUpdate(Origin::signed(B), vec![], vec![], vec![]), Ok(()));
    assert_eq!(module.product_information(b""), Some(&entry(b"", b"", B)));
    assert_eq!(module.events(), &vec![registered(A, b""), updated(b"")]);
    // The empty identifier is an identifier like any other: it is now taken.
    assert_eq!(
        module.add_product(Origin::signed(A), vec![], b"Dell".to_vec(), b"Hyd".to_vec()),
        Err(Error::ProductAlreadyExists)
    );
}

#[test]
fn long_byte_strings_are_accepted() {
    let identifier = vec![0xabu8; 1 << 16];
    let name = vec![0xcdu8; 1 << 16];
    let location = vec![0xefu8; 1 << 16];
    let mut module = TemplateModule::new();
    assert_eq!(
        module.add_product(Origin::signed(A), identifier.clone(), name.clone(), location.clone()),
        Ok(())
    );
    assert_eq!(
        module.product_information(&identifier),
        Some(&Product { location, name: name.clone(), custodian: A })
    );
    // One byte less is another identifier.
    assert!(!module.contains(&identifier[1..]));
    // One byte off in the name is a mismatch.
    let mut other = name.clone();
    other[(1 << 16) - 1] = 0;
    assert_eq!(
        module.LocationUpdate(Origin::signed(A), identifier.clone(), other, b"Blr".to_vec()),
        Err(Error::NameMismatch)
    );
    assert_eq!(
        module.LocationUpdate(Origin::signed(A), identifier, name, b"Blr".to_vec()),
        Ok(())
    );
}

#[test]
fn identifiers_are_compared_byte_for_byte() {
    let mut module = after_registration();
    assert!(!module.contains(b"p1"));
    assert!(!module.contains(b"P1 "));
    assert!(!module.contains(b" P1"));
    assert!(!module.contains(b"P"));
    assert_eq!(
        module.add_product(Origin::signed(B), b"p1".to_vec(), b"HP".to_vec(), b"Blr".to_vec()),
        Ok(())
    );
    assert_eq!(module.product_information(b"P1"), Some(&entry(b"Hyd", b"Dell", A)));
    assert_eq!(module.product_information(b"p1"), Some(&entry(b"Blr", b"HP", B)));
}

#[test]
fn names_are_compared_byte_for_byte() {
    let mut module = after_registration();
    for wrong in [&b"dell"[..], b"Dell ", b"Del", b"", b"Dell\0"] {
        assert_eq!(
            module.LocationUpdate(
                Origin::signed(A),
                b"P1".to_vec(),
                wrong.to_vec(),
                b"Blr".to_vec()
            ),
            Err(Error::NameMismatch)
        );
    }
    assert_eq!(module.product_information(b"P1"), Some(&entry(b"Hyd", b"Dell", A)));
}

#[test]
fn a_name_is_no_identifier() {
    // An update is checked against the name stored under its identifier, not
    // against an entry that happens to be keyed by the name.
    let mut module = after_registration();
    assert!(!module.contains(b"Dell"));
    assert_eq!(
        module.LocationUpdate(
            Origin::signed(A),
            b"P1".to_vec(),
            b"Dell".to_vec(),
            b"Blr".to_vec()
        ),
        Ok(())
    );
}

#[test]
fn a_location_that_is_an_identifier_removes_nothing() {
    let mut module = after_registration();
    assert_eq!(
        module.add_product(Origin::signed(B), b"Blr".to_vec(), b"HP".to_vec(), b"Chn".to_vec()),
        Ok(())
    );
    // The new location of "P1" spells the identifier of the other product.
    assert_eq!(
        module.LocationUpdate(
            Origin::signed(A),
            b"P1".to_vec(),
            b"Dell".to_vec(),
            b"Blr".to_vec()
        ),
        Ok(())
    );
    assert_eq!(module.product_information(b"Blr"), Some(&entry(b"Chn", b"HP", B)));
    assert_eq!(module.product_information(b"P1"), Some(&entry(b"Blr", b"Dell", A)));
}

#[test]
fn contains_agrees_with_read() {
    let mut module = TemplateModule::new();
    let identifiers: [&[u8]; 5] = [b"P1", b"P2", b"", b"X", b"P1"];
    for (turn, identifier) in identifiers.iter().enumerate() {
        for probe in identifiers.iter() {
            assert_eq!(module.contains(probe), module.product_information(probe).is_some());
        }
        let _ = module.add_product(
            Origin::signed(turn as u64),
            identifier.to_vec(),
            b"name".to_vec(),
            b"place".to_vec(),
        );
        assert!(module.contains(identifier));
    }
    // "P1" was offered twice and registered once, by the first submitter.
    assert_eq!(module.product_information(b"P1"), Some(&entry(b"place", b"name", 0)));
    assert_eq!(module.events().len(), 4);
}

#[test]
fn a_command_touches_one_entry_only() {
    let mut module = after_registration();
    assert_eq!(
        module.add_product(Origin::signed(B), b"P2".to_vec(), b"HP".to_vec(), b"Blr".to_vec()),
        Ok(())
    );
    assert_eq!(module.product_information(b"P1"), Some(&entry(b"Hyd", b"Dell", A)));
    assert_eq!(
        module.LocationUpdate(Origin::signed(B), b"P1".to_vec(), b"Dell".to_vec(), b"Chn".to_vec()),
        Ok(())
    );
    assert_eq!(module.product_information(b"P2"), Some(&entry(b"Blr", b"HP", B)));
    assert_eq!(module.product_information(b"P1"), Some(&entry(b"Chn", b"Dell", B)));
}

#[test]
fn rejections_change_nothing() {
    let mut module = after_registration();
    assert_eq!(
        module.add_product(Origin::signed(B), b"P2".to_vec(), b"HP".to_vec(), b"Blr".to_vec()),
        Ok(())
    );
    let journal = module.events().clone();
    let first = module.product_information(b"P1").cloned();
    let second = module.product_information(b"P2").cloned();

    let rejected = [
        module.add_product(Origin::unsigned(), b"P3".to_vec(), b"Mac".to_vec(), b"Chn".to_vec()),
        module.add_product(Origin::signed(B), b"P1".to_vec(), b"Mac".to_vec(), b"Chn".to_vec()),
        module.add_product(Origin::signed(A), b"P2".to_vec(), b"HP".to_vec(), b"Blr".to_vec()),
        module.LocationUpdate(Origin::unsigned(), b"P1".to_vec(), b"Dell".to_vec(), b"C".to_vec()),
        module.LocationUpdate(Origin::signed(A), b"P3".to_vec(), b"Mac".to_vec(), b"Chn".to_vec()),
        module.LocationUpdate(Origin::signed(A), b"P1".to_vec(), b"HP".to_vec(), b"Chn".to_vec()),
        module.LocationUpdate(Origin::signed(B), b"P2".to_vec(), b"Dell".to_vec(), b"Chn".to_vec()),
    ];
    assert_eq!(
        rejected,
        [
            Err(Error::BadOrigin),
            Err(Error::ProductAlreadyExists),
            Err(Error::ProductAlreadyExists),
            Err(Error::BadOrigin),
            Err(Error::NoSuchProduct),
            Err(Error::NameMismatch),
            Err(Error::NameMismatch),
        ]
    );

    assert_eq!(module.events(), &journal);
    assert_eq!(module.product_information(b"P1").cloned(), first);
    assert_eq!(module.product_information(b"P2").cloned(), second);
    assert!(!module.contains(b"P3"));
}

#[test]
fn every_success_emits_exactly_one_event() {
    let mut module = TemplateModule::new();
    assert_eq!(module.events().len(), 0);
    assert!(module
        .add_product(Origin::signed(A), b"P1".to_vec(), b"Dell".to_vec(), b"Hyd".to_vec())
        .is_ok());
    assert_eq!(module.events().len(), 1);
    assert!(module
        .add_product(Origin::signed(A), b"P1".to_vec(), b"Dell".to_vec(), b"Hyd".to_vec())
        .is_err());
    assert_eq!(module.events().len(), 1);
    assert!(module
        .LocationUpdate(Origin::signed(B), b"P1".to_vec(), b"Dell".to_vec(), b"Blr".to_vec())
        .is_ok());
    assert_eq!(module.events().len(), 2);
    assert!(module
        .LocationUpdate(Origin::signed(B), b"P1".to_vec(), b"HP".to_vec(), b"Chn".to_vec())
        .is_err());
    assert_eq!(module.events().len(), 2);
    assert_eq!(module.events()[0], registered(A, b"P1"));
    assert_eq!(module.events()[1], updated(b"Blr"));
}
