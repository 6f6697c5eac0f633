//! Arithmetic on `Data`, the keyed store and the FIFO queue.

use calc::data::Data;
use calc::queue::System;
use calc::queue::Task;
use calc::store::Store;
use calc::unit::Unit;

#[test]
fn add_two_integers() {
    assert_eq!(Data::I32(5).add(Data::I32(3)), Some(Data::I32(8)));
}

#[test]
fn sub_two_integers() {
    assert_eq!(Data::I32(5).sub(Data::I32(3)), Some(Data::I32(2)));
}

#[test]
fn mul_two_integers() {
    assert_eq!(Data::I32(4).mul(Data::I32(3)), Some(Data::I32(12)));
}

#[test]
fn div_two_integers() {
    assert_eq!(Data::I32(10).div(Data::I32(2)), Some(Data::I32(5)));
}

#[test]
fn div_truncates_toward_zero() {
    assert_eq!(Data::I32(7).div(Data::I32(2)), Some(Data::I32(3)));
    assert_eq!(Data::I32(-7).div(Data::I32(2)), Some(Data::I32(-3)));
    assert_eq!(Data::I32(7).div(Data::I32(-2)), Some(Data::I32(-3)));
}

#[test]
fn div_by_zero_yields_nothing() {
    assert_eq!(Data::I32(10).div(Data::I32(0)), None);
}

#[test]
fn div_min_by_minus_one_wraps() {
    assert_eq!(Data::I32(i32::MIN).div(Data::I32(-1)), Some(Data::I32(i32::MIN)));
}

#[test]
fn add_wraps_on_overflow() {
    assert_eq!(Data::I32(i32::MAX).add(Data::I32(1)), Some(Data::I32(i32::MIN)));
    assert_eq!(Data::I32(i32::MIN).sub(Data::I32(1)), Some(Data::I32(i32::MAX)));
}

#[test]
fn text_operand_fails_every_operator() {
    let t = || Data::Text("+".to_string());
    assert_eq!(t().add(Data::I32(1)), None);
    assert_eq!(Data::I32(1).add(t()), None);
    assert_eq!(t().sub(t()), None);
    assert_eq!(t().mul(Data::I32(2)), None);
    assert_eq!(Data::I32(2).div(t()), None);
}

#[test]
fn store_push_then_read() {
    let mut s = Store::new();
    s.push(0, Data::I32(7));
    let got = s.read(0);
    assert_eq!(got, Some(&(0, Data::I32(7))));
}

#[test]
fn store_remove_then_read_nothing() {
    let mut s = Store::new();
    s.push(0, Data::I32(7));
    s.push(1, Data::Text("+".to_string()));
    let removed = s.rm(0);
    assert_eq!(removed, Some((0, Data::I32(7))));
    assert_eq!(s.read(0), None);
    assert_eq!(s.read(1), Some(&(1, Data::Text("+".to_string()))));
}

#[test]
fn store_rm_absent_leaves_store() {
    let mut s = Store::new();
    s.push(2, Data::I32(9));
    assert_eq!(s.rm(5), None);
    assert_eq!(s.read(2), Some(&(2, Data::I32(9))));
}

#[test]
fn store_edit_replaces_in_place() {
    let mut s = Store::new();
    s.push(0, Data::I32(1));
    s.push(1, Data::I32(2));
    s.push(2, Data::I32(3));
    s.edit(1, Data::I32(20));
    assert_eq!(s.read(1), Some(&(1, Data::I32(20))));
    assert_eq!(s.0[0], (0, Data::I32(1)));
    assert_eq!(s.0[1], (1, Data::I32(20)));
    assert_eq!(s.0[2], (2, Data::I32(3)));
}

#[test]
fn store_edit_absent_is_no_op() {
    let mut s = Store::new();
    s.push(0, Data::I32(1));
    s.edit(7, Data::I32(9));
    assert_eq!(s.0.len(), 1);
    assert_eq!(s.0[0], (0, Data::I32(1)));
}

#[test]
fn store_read_finds_first_match() {
    let mut s = Store::new();
    s.push(3, Data::I32(1));
    s.push(3, Data::I32(2));
    assert_eq!(s.read(3), Some(&(3, Data::I32(1))));
}

#[test]
fn store_position_and_insert() {
    let mut s = Store::new();
    s.push(0, Data::I32(1));
    s.push(2, Data::I32(3));
    assert_eq!(s.position(2), Some(1));
    assert_eq!(s.position(9), None);
    s.insert(1, (1, Data::I32(2)));
    assert_eq!(s.0[1], (1, Data::I32(2)));
}

#[test]
fn queue_is_fifo() {
    let mut q = System::new();
    let a = Task::Immut(Unit::Banner);
    let b = Task::Mut(Unit::Menu);
    let c = Task::Mut(Unit::Compute);
    q.task(a);
    q.task(b);
    q.task(c);
    assert_eq!(q.len(), 3);
    assert_eq!(q.rm(0), a);
    assert_eq!(q.rm(0), b);
    assert_eq!(q.rm(0), c);
    assert_eq!(q.len(), 0);
}

#[test]
fn queue_clear_leaves_length_zero() {
    let mut q = System::new();
    q.task(Task::Mut(Unit::Menu));
    q.task(Task::Mut(Unit::Compute));
    q.clear();
    assert_eq!(q.len(), 0);
}

#[test]
fn queue_rm_takes_the_given_index() {
    let mut q = System::new();
    q.task(Task::Mut(Unit::Menu));
    q.task(Task::Mut(Unit::Compute));
    assert_eq!(q.rm(1), Task::Mut(Unit::Compute));
    assert_eq!(q.len(), 1);
    assert_eq!(q.rm(0), Task::Mut(Unit::Menu));
}
