//! Casts between the interface views of objects in a small simulated program.
//!
//! The program has the interfaces `HasId`, `HasLocation`, `HasColor` and
//! `HasTaste` and the concrete types `Point`, `FancyTest<u32>` and
//! `FancyTest<u64>`. Objects live in a heap and are addressed by their slot;
//! dispatch tables are words that the heap knows how to serve.

use std::cell::Cell;
use std::rc::Rc;
use xdc::{
    try_cast, try_cast_boxed, try_cast_mut, CapabilityTable, FatPointer, InterfaceId,
    InterfaceRegistry, MetadataEntry, ObjBase,
};

const POINT_BASE: usize = 0x1000;
const POINT_HAS_ID: usize = 0x1010;
const POINT_HAS_LOCATION: usize = 0x1020;
const POINT_HAS_COLOR: usize = 0x1030;
const FANCY32_BASE: usize = 0x2000;
const FANCY32_HAS_ID: usize = 0x2010;
const FANCY32_HAS_TASTE: usize = 0x2020;
const FANCY64_BASE: usize = 0x3000;
const FANCY64_HAS_TASTE: usize = 0x3010;

struct Point {
    id: u32,
    x: u32,
    y: u32,
    col: u32,
}

pub struct FancyTest<T> {
    pub owo: T,
    pub uwu: &'static str,
}

enum Stored {
    Point(Point),
    Fancy32(FancyTest<u32>),
    Fancy64(FancyTest<u64>),
}

/// The identifiers of the program's interfaces.
struct Interfaces {
    has_id: InterfaceId,
    has_location: InterfaceId,
    has_color: InterfaceId,
    has_taste: InterfaceId,
}

/// The program after its declarations have run.
struct Program {
    ids: Interfaces,
    point: CapabilityTable,
    fancy32: CapabilityTable,
    fancy64: CapabilityTable,
    heap: Vec<Stored>,
}

/// An object seen through its base capability.
struct Base<'p> {
    table: &'p CapabilityTable,
}

impl<'p> ObjBase for Base<'p> {
    fn get_metadata(&self) -> &[MetadataEntry] {
        self.table.get_metadata()
    }
}

impl Program {
    fn new() -> Program {
        let mut registry = InterfaceRegistry::new();
        let ids = Interfaces {
            has_id: registry.register_interface("HasId"),
            has_location: registry.register_interface("HasLocation"),
            has_color: registry.register_interface("HasColor"),
            has_taste: registry.register_interface("HasTaste"),
        };
        let mut point = CapabilityTable::register_type(POINT_BASE);
        point.register_implementation(&registry, ids.has_id, POINT_HAS_ID).unwrap();
        point.register_implementation(&registry, ids.has_location, POINT_HAS_LOCATION).unwrap();
        point.register_implementation(&registry, ids.has_color, POINT_HAS_COLOR).unwrap();
        let mut fancy32 = CapabilityTable::register_type(FANCY32_BASE);
        fancy32.register_implementation(&registry, ids.has_id, FANCY32_HAS_ID).unwrap();
        fancy32.register_implementation(&registry, ids.has_taste, FANCY32_HAS_TASTE).unwrap();
        let mut fancy64 = CapabilityTable::register_type(FANCY64_BASE);
        fancy64.register_implementation(&registry, ids.has_taste, FANCY64_HAS_TASTE).unwrap();
        Program { ids, point, fancy32, fancy64, heap: Vec::new() }
    }

    /// Stores an object and returns its address.
    fn store(&mut self, object: Stored) -> usize {
        self.heap.push(object);
        self.heap.len() - 1
    }

    /// The capability table of the concrete type of the object at `data`.
    fn table_at(&self, data: usize) -> &CapabilityTable {
        match &self.heap[data] {
            Stored::Point(_) => &self.point,
            Stored::Fancy32(_) => &self.fancy32,
            Stored::Fancy64(_) => &self.fancy64,
        }
    }

    /// The base view of the object at `data`.
    fn base(&self, data: usize) -> Base<'_> {
        Base { table: self.table_at(data) }
    }

    /// The reference to the object at `data`, typed as `typeid`.
    fn view(&self, data: usize, typeid: InterfaceId) -> FatPointer {
        let vtable = self.table_at(data).dispatch_table(typeid).unwrap();
        FatPointer { data, vtable }
    }

    fn id(&self, reference: &FatPointer) -> u32 {
        match (reference.vtable, &self.heap[reference.data]) {
            (POINT_HAS_ID | POINT_HAS_LOCATION | POINT_HAS_COLOR, Stored::Point(p)) => p.id,
            (FANCY32_HAS_ID, Stored::Fancy32(f)) => f.owo,
            _ => panic!("the reference serves no id()"),
        }
    }

    fn location(&self, reference: &FatPointer) -> (u32, u32) {
        match (reference.vtable, &self.heap[reference.data]) {
            (POINT_HAS_LOCATION, Stored::Point(p)) => (p.x, p.y),
            _ => panic!("the reference serves no location()"),
        }
    }

    fn color(&self, reference: &FatPointer) -> u32 {
        match (reference.vtable, &self.heap[reference.data]) {
            (POINT_HAS_COLOR, Stored::Point(p)) => p.col,
            _ => panic!("the reference serves no color()"),
        }
    }

    fn taste(&self, reference: &FatPointer) -> &'static str {
        match (reference.vtable, &self.heap[reference.data]) {
            (FANCY32_HAS_TASTE, Stored::Fancy32(f)) => f.uwu,
            (FANCY64_HAS_TASTE, Stored::Fancy64(f)) => f.uwu,
            _ => panic!("the reference serves no taste()"),
        }
    }
}

fn program_with_point() -> (Program, usize) {
    let mut program = Program::new();
    let test = Point { id: 123, x: 1, y: 2, col: 3 };
    let data = program.store(Stored::Point(test));
    (program, data)
}

#[test]
fn test_const() {
    let (program, data) = program_with_point();
    let test_as_haslocation = program.view(data, program.ids.has_location);
    assert_eq!(program.location(&test_as_haslocation), (1, 2));
    assert_eq!(program.id(&test_as_haslocation), 123);
    let test_cast =
        try_cast(&program.base(data), &test_as_haslocation, program.ids.has_color).unwrap();
    assert_eq!(program.color(&test_cast), 3);
    assert_eq!(program.id(&test_cast), 123);
}

#[test]
fn test_mut() {
    let (program, data) = program_with_point();
    let mut test_as_haslocation = program.view(data, program.ids.has_location);
    assert_eq!(program.location(&test_as_haslocation), (1, 2));
    assert_eq!(program.id(&test_as_haslocation), 123);
    let test_cast =
        try_cast_mut(&program.base(data), &mut test_as_haslocation, program.ids.has_color)
            .unwrap();
    assert_eq!(program.color(&test_cast), 3);
    assert_eq!(program.id(&test_cast), 123);
}

#[test]
fn test_boxed() {
    let (program, data) = program_with_point();
    let test_as_haslocation = program.view(data, program.ids.has_location);
    assert_eq!(program.location(&test_as_haslocation), (1, 2));
    assert_eq!(program.id(&test_as_haslocation), 123);
    let test_cast =
        try_cast_boxed(&program.base(data), test_as_haslocation, program.ids.has_color).unwrap();
    assert_eq!(program.color(&test_cast), 3);
    assert_eq!(program.id(&test_cast), 123);
}

#[test]
fn test_bad_cast() {
    let (program, data) = program_with_point();
    let test_as_haslocation = program.view(data, program.ids.has_location);
    let test_cast = try_cast(&program.base(data), &test_as_haslocation, program.ids.has_taste);
    assert!(test_cast.is_none());
}

#[test]
fn test_fancy_1() {
    let mut program = Program::new();
    let test = FancyTest { owo: 123u32, uwu: "spicy" };
    let data = program.store(Stored::Fancy32(test));
    let base = program.base(data);
    let test_as_objbase = program.view(data, InterfaceId::base());
    let test_cast_1 = try_cast(&base, &test_as_objbase, program.ids.has_id).unwrap();
    assert_eq!(program.id(&test_cast_1), 123);
    let test_cast_2 = try_cast(&base, &test_cast_1, program.ids.has_taste).unwrap();
    assert_eq!(program.taste(&test_cast_2), "spicy");

    let test_cast = try_cast(&base, &test_cast_2, program.ids.has_color);
    assert!(test_cast.is_none());
    let test_cast = try_cast(&base, &test_cast_2, program.ids.has_location);
    assert!(test_cast.is_none());
}

#[test]
fn test_fancy_2() {
    let mut program = Program::new();
    let test = FancyTest { owo: 456u64, uwu: "salty" };
    let data = program.store(Stored::Fancy64(test));
    let base = program.base(data);
    let test_as_objbase = program.view(data, InterfaceId::base());
    let test_cast_1 = try_cast(&base, &test_as_objbase, program.ids.has_taste).unwrap();
    assert_eq!(program.taste(&test_cast_1), "salty");

    let test_cast = try_cast(&base, &test_cast_1, program.ids.has_id);
    assert!(test_cast.is_none());
    let test_cast = try_cast(&base, &test_cast_1, program.ids.has_color);
    assert!(test_cast.is_none());
    let test_cast = try_cast(&base, &test_cast_1, program.ids.has_location);
    assert!(test_cast.is_none());
}

#[test]
fn point_scenario() {
    let (program, data) = program_with_point();
    let start = program.view(data, program.ids.has_location);
    assert_eq!(start, FatPointer { data, vtable: POINT_HAS_LOCATION });
    assert_eq!(program.location(&start), (1, 2));
    assert_eq!(program.id(&start), 123);
    let color = try_cast(&program.base(data), &start, program.ids.has_color);
    assert_eq!(color, Some(FatPointer { data, vtable: POINT_HAS_COLOR }));
    assert_eq!(program.color(&color.unwrap()), 3);
    assert_eq!(try_cast(&program.base(data), &start, program.ids.has_taste), None);
}

#[test]
fn cast_keeps_the_address() {
    let mut program = Program::new();
    let first = program.store(Stored::Point(Point { id: 1, x: 0, y: 0, col: 0 }));
    let second = program.store(Stored::Point(Point { id: 2, x: 0, y: 0, col: 0 }));
    assert!(first != second);
    for data in [first, second] {
        let from = program.view(data, program.ids.has_color);
        let to = try_cast(&program.base(data), &from, program.ids.has_id).unwrap();
        assert_eq!(to.data, data);
        assert_eq!(to.vtable, POINT_HAS_ID);
    }
    let to = try_cast(
        &program.base(second),
        &program.view(second, program.ids.has_color),
        program.ids.has_id,
    )
    .unwrap();
    assert_eq!(program.id(&to), 2);
}

#[test]
fn round_trip_through_every_interface() {
    let (program, data) = program_with_point();
    let base = program.base(data);
    let base_view = program.view(data, InterfaceId::base());
    assert_eq!(base_view, FatPointer { data, vtable: POINT_BASE });
    for typeid in [program.ids.has_id, program.ids.has_location, program.ids.has_color] {
        let there = try_cast(&base, &base_view, typeid).unwrap();
        let back = try_cast(&base, &there, InterfaceId::base()).unwrap();
        assert_eq!(back, base_view);
        let again = try_cast(&base, &back, typeid).unwrap();
        assert_eq!(again, there);
    }
}

#[test]
fn absence_does_not_depend_on_the_starting_view() {
    let (program, data) = program_with_point();
    let base = program.base(data);
    let starts = [
        InterfaceId::base(),
        program.ids.has_id,
        program.ids.has_location,
        program.ids.has_color,
    ];
    for start in starts {
        let from = program.view(data, start);
        assert_eq!(try_cast(&base, &from, program.ids.has_taste), None);
    }
}

#[test]
fn cast_between_unrelated_interfaces_is_one_step() {
    let mut program = Program::new();
    let data = program.store(Stored::Fancy32(FancyTest { owo: 7, uwu: "sour" }));
    let base = program.base(data);
    let as_id = program.view(data, program.ids.has_id);
    let as_taste = try_cast(&base, &as_id, program.ids.has_taste).unwrap();
    assert_eq!(as_taste, FatPointer { data, vtable: FANCY32_HAS_TASTE });
    assert_eq!(program.taste(&as_taste), "sour");
    let via_base = try_cast(&base, &as_id, InterfaceId::base()).unwrap();
    assert_eq!(try_cast(&base, &via_base, program.ids.has_taste), Some(as_taste));
}

#[test]
fn exclusive_cast_leaves_the_source_as_it_was() {
    let (program, data) = program_with_point();
    let mut reference = program.view(data, program.ids.has_location);
    let to = try_cast_mut(&program.base(data), &mut reference, program.ids.has_id).unwrap();
    assert_eq!(to, FatPointer { data, vtable: POINT_HAS_ID });
    assert_eq!(program.id(&to), 123);
    assert_eq!(reference, FatPointer { data, vtable: POINT_HAS_LOCATION });
    assert_eq!(program.location(&reference), (1, 2));
}

#[test]
fn failed_exclusive_cast_changes_nothing() {
    let (program, data) = program_with_point();
    let mut reference = program.view(data, program.ids.has_location);
    assert!(try_cast_mut(&program.base(data), &mut reference, program.ids.has_taste).is_none());
    assert_eq!(reference, FatPointer { data, vtable: POINT_HAS_LOCATION });
    assert_eq!(program.location(&reference), (1, 2));
}

/// An object whose table was written by hand: it names interface 1 twice
/// and has no base entry.
struct Odd;

impl ObjBase for Odd {
    fn get_metadata(&self) -> &[MetadataEntry] {
        &[
            MetadataEntry { typeid: InterfaceId(1), vtable: 0x11 },
            MetadataEntry { typeid: InterfaceId(2), vtable: 0x12 },
            MetadataEntry { typeid: InterfaceId(1), vtable: 0x21 },
        ]
    }
}

#[test]
fn cast_goes_by_the_table_that_the_object_reports() {
    let from = FatPointer { data: 0x7000, vtable: 0x12 };
    assert_eq!(
        try_cast(&Odd, &from, InterfaceId(1)),
        Some(FatPointer { data: 0x7000, vtable: 0x11 })
    );
    assert_eq!(
        try_cast(&Odd, &from, InterfaceId(2)),
        Some(FatPointer { data: 0x7000, vtable: 0x12 })
    );
    assert_eq!(try_cast(&Odd, &from, InterfaceId::base()), None);
    assert_eq!(try_cast(&Odd, &from, InterfaceId(3)), None);
    let object: &dyn ObjBase = &Odd;
    assert_eq!(
        try_cast(object, &from, InterfaceId(1)),
        Some(FatPointer { data: 0x7000, vtable: 0x11 })
    );
    assert_eq!(
        try_cast_boxed(object, FatPointer { data: 1, vtable: 2 }, InterfaceId(0)),
        Err(FatPointer { data: 1, vtable: 2 })
    );
}

/// An object that counts, in a counter shared with the test, how often it
/// is destroyed.
struct Counted {
    destroyed: Rc<Cell<u32>>,
}

impl Drop for Counted {
    fn drop(&mut self) {
        self.destroyed.set(self.destroyed.get() + 1);
    }
}

/// A heap of owned objects. The holder of the owning reference to a slot is
/// the one who releases the object in it.
struct Owned {
    slots: Vec<Option<Counted>>,
}

impl Owned {
    /// Gives up an owning reference and destroys its object.
    fn release(&mut self, owner: FatPointer) {
        let object = self.slots[owner.data].take().expect("an object is released once");
        drop(object);
    }
}

#[test]
fn failed_owned_cast_hands_the_reference_back() {
    let (program, data) = program_with_point();
    let destroyed = Rc::new(Cell::new(0));
    let mut owned = Owned { slots: vec![Some(Counted { destroyed: destroyed.clone() })] };
    let mut owner = program.view(data, program.ids.has_location);
    for _ in 0..5 {
        owner = match try_cast_boxed(&program.base(data), owner, program.ids.has_taste) {
            Ok(_) => panic!("Point has no taste"),
            Err(back) => back,
        };
        assert_eq!(owner, FatPointer { data, vtable: POINT_HAS_LOCATION });
        assert_eq!(destroyed.get(), 0);
    }
    assert_eq!(program.location(&owner), (1, 2));
    owned.release(owner);
    assert_eq!(destroyed.get(), 1);
    drop(owned);
    assert_eq!(destroyed.get(), 1);
}

#[test]
fn owned_cast_moves_the_reference() {
    let (program, data) = program_with_point();
    let destroyed = Rc::new(Cell::new(0));
    let mut owned = Owned { slots: vec![Some(Counted { destroyed: destroyed.clone() })] };
    let owner = program.view(data, program.ids.has_location);
    let owner = try_cast_boxed(&program.base(data), owner, program.ids.has_color).unwrap();
    assert_eq!(owner, FatPointer { data, vtable: POINT_HAS_COLOR });
    let owner = try_cast_boxed(&program.base(data), owner, program.ids.has_id).unwrap();
    assert_eq!(program.id(&owner), 123);
    assert_eq!(destroyed.get(), 0);
    owned.release(owner);
    assert_eq!(destroyed.get(), 1);
}
