use std::collections::hash_map::DefaultHasher;
use std::hash::{Hash, Hasher};

use ratatui_core::style::{Color, Style};
use ratatui_core::text::Line;
use ratatui_widgets::focus::Focusable;
use ratatui_widgets::list::{List, ListDirection};

fn noop(_: &&str) {}

fn ignore(_: &i32) {}

fn ignore_u8(_: &u8) {}

fn ignore_string(_: &String) {}

fn identity(x: &i32) -> i32 {
    *x
}

#[test]
fn list_new_selects_first_equal_item() {
    let list = List::new(vec!["a", "b", "c", "b"], Some(&"b"), noop);
    assert_eq!(list.selected(), Some(1));
    assert_eq!(list.len(), 4);
    assert!(!list.is_empty());
    assert_eq!(list.items(), &["a", "b", "c", "b"]);
}

#[test]
fn list_new_without_selection() {
    let list = List::new(vec!["a", "b"], None, noop);
    assert_eq!(list.selected(), None);
}

#[test]
fn list_new_selection_not_found() {
    let list = List::new(vec![1, 2, 3], Some(&4), ignore);
    assert_eq!(list.selected(), None);
}

#[test]
fn list_new_selects_last_item() {
    let list = List::new(vec![1, 2, 3], Some(&3), ignore);
    assert_eq!(list.selected(), Some(2));
}

#[test]
fn list_new_empty() {
    let list = List::new(Vec::<i32>::new(), Some(&1), ignore);
    assert_eq!(list.selected(), None);
    assert_eq!(list.len(), 0);
    assert!(list.is_empty());
}

#[test]
fn list_new_defaults() {
    let list = List::new(vec![1u8], None, ignore_u8);
    assert_eq!(list.direction_ref(), ListDirection::TopToBottom);
    assert!(!list.is_focused());
}

#[test]
fn list_direction_default_is_top_to_bottom() {
    assert_eq!(ListDirection::default(), ListDirection::TopToBottom);
}

#[test]
fn list_setters_keep_selection_and_items() {
    let list = List::new(vec![5, 6, 7], Some(&7), identity)
        .direction(ListDirection::BottomToTop)
        .scroll_padding(2)
        .repeat_highlight_symbol(true)
        .highlight_symbol(">>")
        .highlight_style(Color::Red)
        .style(Style::new().bg(Color::Blue));
    assert_eq!(list.selected(), Some(2));
    assert_eq!(list.items(), &[5, 6, 7]);
    assert_eq!(list.direction_ref(), ListDirection::BottomToTop);
    assert_eq!((list.on_select_fn())(&6), 6);
}

#[test]
fn list_focus_roundtrip() {
    let list = List::new(vec![1], None, ignore);
    let focused = list.focus(true);
    assert!(focused.is_focused());
    let unfocused = focused.focus(false);
    assert!(!unfocused.is_focused());
}

#[test]
fn list_eq_compares_settings() {
    let a = List::new(vec![1, 2], Some(&2), ignore);
    let b = List::new(vec![1, 2], Some(&2), ignore);
    assert!(a.eq(&b));
    let c = List::new(vec![1, 2], Some(&1), ignore);
    assert!(!a.eq(&c));
    let d = List::new(vec![1, 2], Some(&2), ignore).scroll_padding(1);
    assert!(!a.eq(&d));
    let e = List::new(vec![1, 3], Some(&1), ignore);
    assert!(!c.eq(&e));
    let f = List::new(vec![1, 2], Some(&2), ignore).highlight_style(Color::Red);
    assert!(!a.eq(&f));
}

#[test]
fn list_eq_compares_symbol_text() {
    let a = List::new(vec![1], None, ignore).highlight_symbol(">>");
    let b = List::new(vec![1], None, ignore).highlight_symbol(Line::from(String::from(">>")));
    assert!(a.eq(&b));
    let c = List::new(vec![1], None, ignore).highlight_symbol("*");
    assert!(!a.eq(&c));
}

#[test]
fn list_clone_keeps_selection() {
    let a = List::new(vec![String::from("x"), String::from("y")], Some(&String::from("y")), ignore_string);
    let b = a.clone();
    assert_eq!(b.selected(), Some(1));
    assert!(a.eq(&b));
}

fn hash_of<T: Hash>(value: &T) -> u64 {
    let mut hasher = DefaultHasher::new();
    value.hash(&mut hasher);
    hasher.finish()
}

#[test]
fn list_hash_agrees_with_eq() {
    let a = List::new(vec![1, 2, 3], Some(&2), ignore).highlight_symbol(">>");
    let b = List::new(vec![1, 2, 3], Some(&2), ignore).highlight_symbol(Line::from(String::from(">>")));
    assert!(a.eq(&b));
    assert_eq!(hash_of(&a), hash_of(&b));
    let c = List::new(vec![1, 2, 3], Some(&2), ignore).highlight_symbol(">>").focus(true);
    assert_eq!(hash_of(&a), hash_of(&c));
}

#[test]
fn list_hash_sees_direction() {
    let a = List::new(vec![1, 2, 3], None, ignore);
    let b = List::new(vec![1, 2, 3], None, ignore).direction(ListDirection::BottomToTop);
    assert_ne!(hash_of(&a), hash_of(&b));
    let c = List::new(vec![1, 2, 4], None, ignore);
    assert_ne!(hash_of(&a), hash_of(&c));
}

#[test]
fn list_eq_symbol_presence() {
    let a = List::new(vec![1], None, ignore);
    let b = List::new(vec![1], None, ignore).highlight_symbol("");
    assert!(!a.eq(&b));
    assert!(!b.eq(&a));
}
