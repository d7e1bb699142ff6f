use as_base::{AsBase, AsBaseMut, AsBasePin, AsBasePinMut, AsBaseRef, Embeds};
use std::pin::Pin;

#[derive(Debug, Clone, PartialEq)]
struct BaseType {
    id: u32,
    label: String,
}

fn base(id: u32, label: &str) -> BaseType {
    BaseType { id, label: label.to_string() }
}

/// A derived type with full base access.
struct Derived {
    base: BaseType,
    extra: u32,
}

impl Embeds<BaseType> for Derived {
    fn base(&self) -> BaseType {
        self.base.clone()
    }
}

impl AsBaseRef<BaseType> for Derived {
    fn as_base(&self) -> &BaseType {
        &self.base
    }
}

impl AsBaseMut<BaseType> for Derived {
    fn as_base_mut(&mut self) -> &mut BaseType {
        &mut self.base
    }
}

impl AsBasePin<BaseType> for Derived {
    fn as_base_pin(self: Pin<&Self>) -> Pin<&BaseType> {
        Pin::new(&self.get_ref().base)
    }
}

impl AsBasePinMut<BaseType> for Derived {
    fn as_base_pin_mut(self: Pin<&mut Self>) -> Pin<&mut BaseType> {
        Pin::new(&mut self.get_mut().base)
    }
}

impl AsBase<BaseType> for Derived {}

/// A second derived type on the same base, with full base access too.
struct Sibling {
    base: BaseType,
    notes: Vec<String>,
}

impl Embeds<BaseType> for Sibling {
    fn base(&self) -> BaseType {
        self.base.clone()
    }
}

impl AsBaseRef<BaseType> for Sibling {
    fn as_base(&self) -> &BaseType {
        &self.base
    }
}

impl AsBaseMut<BaseType> for Sibling {
    fn as_base_mut(&mut self) -> &mut BaseType {
        &mut self.base
    }
}

impl AsBasePin<BaseType> for Sibling {
    fn as_base_pin(self: Pin<&Self>) -> Pin<&BaseType> {
        Pin::new(&self.get_ref().base)
    }
}

impl AsBasePinMut<BaseType> for Sibling {
    fn as_base_pin_mut(self: Pin<&mut Self>) -> Pin<&mut BaseType> {
        Pin::new(&mut self.get_mut().base)
    }
}

impl AsBase<BaseType> for Sibling {}

/// A derived type that offers the cast of shared handles and no other.
struct ReadOnly {
    base: BaseType,
}

impl Embeds<BaseType> for ReadOnly {
    fn base(&self) -> BaseType {
        self.base.clone()
    }
}

impl AsBaseRef<BaseType> for ReadOnly {
    fn as_base(&self) -> &BaseType {
        &self.base
    }
}

/// An interface that asks for full access to `BaseType`.
trait Shape: AsBase<BaseType> {
    fn describe(&self) -> String;
    fn set_extra(&mut self, value: u32);
}

impl Shape for Derived {
    fn describe(&self) -> String {
        format!("derived with extra {}", self.extra)
    }

    fn set_extra(&mut self, value: u32) {
        self.extra = value;
    }
}

impl Shape for Sibling {
    fn describe(&self) -> String {
        format!("sibling with {} notes", self.notes.len())
    }

    fn set_extra(&mut self, value: u32) {
        self.notes.push(value.to_string());
    }
}

/// An interface that asks for shared access to `BaseType` alone.
trait Readable: AsBaseRef<BaseType> {}

impl Readable for ReadOnly {}

impl Readable for Derived {}

fn label_of(shape: &dyn Shape) -> String {
    shape.as_base().label.clone()
}

fn rename(shape: &mut dyn Shape, label: &str) {
    shape.as_base_mut().label = label.to_string();
}

#[test]
fn cast_of_polymorphic_handle_reads_the_base_field() {
    let mut handle: Box<dyn Shape> = Box::new(Derived { base: base(7, "seven"), extra: 1 });
    assert_eq!(*handle.as_base(), base(7, "seven"));
    handle.set_extra(99);
    assert_eq!(handle.describe(), "derived with extra 99");
    assert_eq!(*handle.as_base(), base(7, "seven"));
}

#[test]
fn cast_reads_the_base_of_a_concrete_value() {
    let derived = Derived { base: base(3, "three"), extra: 30 };
    assert_eq!(*derived.as_base(), derived.base);
    assert_eq!(derived.as_base().id, 3);
    assert_eq!(derived.extra, 30);
}

#[test]
fn write_through_cast_is_read_through_the_derived_handle() {
    let mut derived = Derived { base: base(1, "one"), extra: 10 };
    derived.as_base_mut().id = 2;
    derived.as_base_mut().label.push_str(" and a half");
    assert_eq!(derived.base, base(2, "one and a half"));
    assert_eq!(*derived.as_base(), base(2, "one and a half"));
    assert_eq!(derived.extra, 10);
}

#[test]
fn replacing_the_base_through_cast_replaces_the_base_field() {
    let mut derived = Derived { base: base(1, "one"), extra: 10 };
    *derived.as_base_mut() = base(5, "five");
    assert_eq!(derived.base, base(5, "five"));
    assert_eq!(derived.extra, 10);
}

#[test]
fn write_through_the_derived_handle_is_read_through_cast() {
    let mut derived = Derived { base: base(1, "one"), extra: 10 };
    derived.base.id = 41;
    assert_eq!(derived.as_base().id, 41);
    assert_eq!(derived.as_base_mut().id, 41);
    derived.extra = 99;
    assert_eq!(*derived.as_base(), base(41, "one"));
}

#[test]
fn write_through_cast_of_polymorphic_handle_is_observed() {
    let mut handle: Box<dyn Shape> = Box::new(Derived { base: base(1, "one"), extra: 10 });
    rename(handle.as_mut(), "uno");
    assert_eq!(label_of(handle.as_ref()), "uno");
    assert_eq!(handle.describe(), "derived with extra 10");
}

#[test]
fn pinned_cast_reads_the_base_field() {
    let derived = Derived { base: base(8, "eight"), extra: 80 };
    let pinned: Pin<&Derived> = Pin::new(&derived);
    let cast: Pin<&BaseType> = pinned.as_base_pin();
    assert_eq!(*cast, base(8, "eight"));
}

#[test]
fn write_through_pinned_cast_is_read_through_the_derived_handle() {
    let mut derived = Derived { base: base(8, "eight"), extra: 80 };
    let pinned: Pin<&mut Derived> = Pin::new(&mut derived);
    let mut cast: Pin<&mut BaseType> = pinned.as_base_pin_mut();
    cast.id = 9;
    assert_eq!(derived.base, base(9, "eight"));
    assert_eq!(derived.extra, 80);
}

#[test]
fn pinned_cast_of_boxed_polymorphic_handle_reads_the_base_field() {
    let mut handle: Pin<Box<dyn Shape>> =
        Box::pin(Derived { base: base(4, "four"), extra: 40 });
    assert_eq!(handle.as_ref().as_base_pin().id, 4);
    handle.as_mut().as_base_pin_mut().id = 5;
    assert_eq!(*handle.as_ref().as_base_pin(), base(5, "four"));
}

#[test]
fn sibling_types_cast_to_the_same_base_without_interference() {
    let mut first = Derived { base: base(1, "first"), extra: 10 };
    let mut second = Sibling { base: base(2, "second"), notes: vec!["note".to_string()] };
    assert_eq!(*first.as_base(), base(1, "first"));
    assert_eq!(*second.as_base(), base(2, "second"));
    first.as_base_mut().id = 100;
    assert_eq!(*first.as_base(), base(100, "first"));
    assert_eq!(*second.as_base(), base(2, "second"));
    second.as_base_mut().label = "changed".to_string();
    assert_eq!(*first.as_base(), base(100, "first"));
    assert_eq!(*second.as_base(), base(2, "changed"));
    assert_eq!(first.extra, 10);
    assert_eq!(second.notes, vec!["note".to_string()]);
}

#[test]
fn sibling_types_behind_one_interface_keep_their_own_base() {
    let mut shapes: Vec<Box<dyn Shape>> = vec![
        Box::new(Derived { base: base(1, "first"), extra: 10 }),
        Box::new(Sibling { base: base(2, "second"), notes: Vec::new() }),
    ];
    rename(shapes[1].as_mut(), "renamed");
    shapes[0].set_extra(99);
    shapes[1].set_extra(99);
    let labels: Vec<String> = shapes.iter().map(|shape| label_of(shape.as_ref())).collect();
    assert_eq!(labels, vec!["first".to_string(), "renamed".to_string()]);
    assert_eq!(shapes[0].as_base().id, 1);
    assert_eq!(shapes[1].as_base().id, 2);
    assert_eq!(shapes[1].describe(), "sibling with 1 notes");
}

#[test]
fn type_with_the_shared_capability_alone_offers_the_shared_cast() {
    let read_only = ReadOnly { base: base(6, "six") };
    assert_eq!(*read_only.as_base(), base(6, "six"));
    let handles: Vec<Box<dyn Readable>> = vec![
        Box::new(read_only),
        Box::new(Derived { base: base(7, "seven"), extra: 70 }),
    ];
    let ids: Vec<u32> = handles.iter().map(|handle| handle.as_base().id).collect();
    assert_eq!(ids, vec![6, 7]);
}

#[test]
fn model_of_the_base_agrees_with_the_cast() {
    let mut derived = Derived { base: base(1, "one"), extra: 10 };
    assert_eq!(Embeds::base(&derived), *derived.as_base());
    derived.as_base_mut().id = 2;
    assert_eq!(Embeds::base(&derived), base(2, "one"));
}
