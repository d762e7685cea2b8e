use gemm_bi_triad::error::LaunchError;
use gemm_bi_triad::identity::AllocationDomain;
use gemm_bi_triad::observer::{
    prepare_physical_observer, PhysicalArgumentRange, PhysicalObserver,
};
use std::cell::RefCell;

const DOMAIN: AllocationDomain = AllocationDomain {
    context_handle: 5,
    device_ordinal: 0,
};

fn range(pointer: u64, required_bytes: u64) -> PhysicalArgumentRange {
    PhysicalArgumentRange {
        pointer,
        required_bytes,
    }
}

fn observer() -> PhysicalObserver<(u64, u64), u64> {
    prepare_physical_observer(
        (DOMAIN, DOMAIN),
        4,
        &vec![range(0x1000, 64), range(0x2000, 128)],
        |pointer, bytes| Ok((pointer, bytes)),
        |context, ranges: &Vec<PhysicalArgumentRange>| Some(context + ranges.len() as u64),
    )
    .unwrap()
}

#[test]
fn observers_hold_every_allocation_in_order() {
    let observer = observer();
    assert_eq!(observer.capacity, 4);
    assert_eq!(observer.allocations, vec![(0x1000, 64), (0x2000, 128)]);
    assert_eq!(observer.managed_epoch, Some(7));
}

#[test]
fn observers_stop_at_the_first_refused_range() {
    let asked = RefCell::new(Vec::new());
    let unmapped = LaunchError::Rejected("unmapped");
    let refused = prepare_physical_observer(
        (DOMAIN, DOMAIN),
        4,
        &vec![range(0x1000, 64), range(0, 8), range(0x2000, 128)],
        |pointer, _| {
            asked.borrow_mut().push(pointer);
            if pointer == 0 {
                Err(unmapped)
            } else {
                Ok(pointer)
            }
        },
        |_, _: &Vec<PhysicalArgumentRange>| -> Option<u64> { panic!("nothing is stamped") },
    );
    assert_eq!(refused.err().unwrap(), unmapped);
    assert_eq!(*asked.borrow(), vec![0x1000, 0]);
}

#[test]
fn observers_need_an_argument_and_one_domain() {
    let prepare = |kernels| {
        prepare_physical_observer(
            (DOMAIN, kernels),
            4,
            &vec![],
            |pointer, _| Ok(pointer),
            |_, _: &Vec<PhysicalArgumentRange>| None::<u64>,
        )
        .err()
        .unwrap()
        .message()
    };
    assert_eq!(
        prepare(DOMAIN),
        "physical launch observer requires prevalidated arguments"
    );
    let other = AllocationDomain {
        device_ordinal: 1,
        ..DOMAIN
    };
    assert_eq!(
        prepare(other),
        "physical half launch stream allocation domain AllocationDomain { context_handle: 5, device_ordinal: 0 } does not match kernel module allocation domain AllocationDomain { context_handle: 5, device_ordinal: 1 }"
    );
}

#[test]
fn arguments_are_identified_by_the_first_allocation_that_holds_them() {
    let observer = observer();
    let within = |allocation: &(u64, u64), pointer: u64, bytes: u64| {
        if allocation.0 <= pointer && pointer + bytes <= allocation.0 + allocation.1 {
            Some([(allocation.0 >> 12) as u8; 32])
        } else {
            None
        }
    };
    assert_eq!(observer.identify(range(0x2010, 16), within), Ok([2; 32]));
    assert_eq!(observer.identify(range(0x1000, 64), within), Ok([1; 32]));
    assert_eq!(
        observer.identify(range(0x1000, 65), within),
        Err(LaunchError::OutsideAllocations(0x1000, 65))
    );
}
