use kson::enum_info::describe;
use kson::EnumQuery;
use kson::FromForeign;
use kson::QueryPhase;
use kson::RawHandle;
use kson::SharedHandle;
use kson::ToForeign;
use kson::TypeDescriptor;
use kson::UniqueOwner;

#[test]
fn unique_owner_surrenders_its_handle_on_disposal() {
    let mut owner = UniqueOwner::acquire(17);
    assert_eq!(owner.raw(), 17);
    assert_eq!(owner.dispose(), 17);
}

#[test]
fn shared_handle_disposes_on_last_release_only() {
    let mut shared = SharedHandle::acquire(23);
    shared.clone_owner();
    shared.clone_owner();
    assert!(!shared.release());
    assert_eq!(shared.raw(), 23);
    assert!(!shared.release());
    assert!(shared.release());
}

#[test]
fn shared_handle_with_single_owner_disposes_at_once() {
    let mut shared = SharedHandle::acquire(1);
    assert!(shared.release());
}

#[test]
fn type_descriptor_is_freely_copied() {
    let descriptor = TypeDescriptor::new(99);
    let copy = descriptor;
    assert_eq!(descriptor.raw(), 99);
    assert_eq!(copy.raw(), 99);
}

#[test]
fn raw_handle_converts_by_pass_through() {
    let handle: RawHandle = 31;
    assert_eq!(handle.to_foreign(), 31);
    assert_eq!(RawHandle::from_foreign(31), 31);
}

#[test]
fn enum_query_walks_its_phases_and_disposes_both_handles() {
    let mut query = EnumQuery::begin(5);
    query.helper_resolved(6);
    assert_eq!(query.value(), 5);
    assert_eq!(query.helper(), 6);
    let (value, helper) = query.finish();
    assert_eq!(value, 5);
    assert_eq!(helper, 6);
}

#[test]
fn enum_query_phase_is_observable() {
    let mut query = EnumQuery::begin(8);
    assert_eq!(query.current_phase(), QueryPhase::ValueHeld);
    query.helper_resolved(9);
    assert_eq!(query.current_phase(), QueryPhase::HelperHeld);
    let _ = query.finish();
    assert_eq!(query.current_phase(), QueryPhase::Done);
}

#[test]
fn describe_decodes_the_foreign_name_buffer() {
    let description = describe(&vec![b'R', b'E', b'D', 0], 2);
    assert_eq!(description.name, "RED");
    assert_eq!(description.ordinal, 2);
}
