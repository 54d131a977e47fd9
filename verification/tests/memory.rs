use vulkano::memory::select_memory_type;
use vulkano::memory::MemoryType;
use vulkano::memory::MAX_MEMORY_TYPES;

fn ty(id: u32, device_local: bool) -> MemoryType {
    MemoryType::new(id, device_local).unwrap()
}

#[test]
fn memory_type_ids_are_below_the_maximum() {
    assert_eq!(MAX_MEMORY_TYPES, 32);
    assert!(MemoryType::new(0, false).is_some());
    assert!(MemoryType::new(31, true).is_some());
    assert!(MemoryType::new(32, true).is_none());
    assert!(MemoryType::new(u32::MAX, false).is_none());
    let t = ty(5, true);
    assert_eq!(t.id(), 5);
    assert!(t.is_device_local());
}

#[test]
fn mask_names_a_type_by_its_bit() {
    assert!(ty(0, false).is_allowed_by(0b0001));
    assert!(!ty(1, false).is_allowed_by(0b0001));
    assert!(ty(3, false).is_allowed_by(0b1000));
    assert!(ty(31, false).is_allowed_by(0x8000_0000));
    assert!(!ty(31, false).is_allowed_by(0x7fff_ffff));
    assert!(!ty(7, true).is_allowed_by(0));
    assert!(ty(7, true).is_allowed_by(u32::MAX));
}

#[test]
fn first_device_local_type_is_preferred() {
    let types = vec![ty(0, false), ty(1, true), ty(2, true), ty(3, false)];
    assert_eq!(select_memory_type(&types, 0b1111), Some(ty(1, true)));
    assert_eq!(select_memory_type(&types, 0b1101), Some(ty(2, true)));
    assert_eq!(select_memory_type(&types, 0b0110), Some(ty(1, true)));
}

#[test]
fn first_suitable_type_is_taken_without_device_local_memory() {
    let types = vec![ty(0, false), ty(1, true), ty(2, true), ty(3, false)];
    assert_eq!(select_memory_type(&types, 0b1001), Some(ty(0, false)));
    assert_eq!(select_memory_type(&types, 0b1000), Some(ty(3, false)));
}

#[test]
fn no_type_is_chosen_where_none_suits() {
    let types = vec![ty(0, false), ty(1, true)];
    assert_eq!(select_memory_type(&types, 0), None);
    assert_eq!(select_memory_type(&types, 0b100), None);
    assert_eq!(select_memory_type(&Vec::new(), u32::MAX), None);
}

#[test]
fn order_of_the_device_decides_not_the_id() {
    let types = vec![ty(4, true), ty(2, true), ty(0, false)];
    assert_eq!(select_memory_type(&types, u32::MAX), Some(ty(4, true)));
    assert_eq!(select_memory_type(&types, 0b00101), Some(ty(2, true)));
}
