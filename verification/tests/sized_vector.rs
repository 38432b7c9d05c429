use invader::sized_vector::SizedVector;

#[test]
fn new_buffer_is_empty() {
    let v: SizedVector<u32> = SizedVector::new(3);
    assert_eq!(v.len(), 0);
    assert!(v.is_empty());
}

#[test]
fn push_keeps_order_below_the_bound() {
    let mut v = SizedVector::new(3);
    v.push(1);
    v.push(2);
    v.push(3);
    assert_eq!(v.len(), 3);
    assert!(!v.is_empty());
    assert_eq!(*v.get(0), 1);
    assert_eq!(*v.get(1), 2);
    assert_eq!(*v.get(2), 3);
}

#[test]
fn push_on_a_full_buffer_drops_the_oldest() {
    let mut v = SizedVector::new(3);
    v.push(1);
    v.push(2);
    v.push(3);
    v.push(4);
    assert_eq!(v.len(), 3);
    assert_eq!(v.into_vec(), vec![2, 3, 4]);
}

#[test]
fn pop_takes_the_oldest() {
    let mut v = SizedVector::new(2);
    assert_eq!(v.pop(), None);
    v.push(7);
    v.push(8);
    assert_eq!(v.pop(), Some(7));
    assert_eq!(v.pop(), Some(8));
    assert_eq!(v.pop(), None);
    assert!(v.is_empty());
}

#[test]
fn clear_empties_the_buffer() {
    let mut v = SizedVector::new(2);
    v.push(7);
    v.push(8);
    v.clear();
    assert_eq!(v.len(), 0);
    v.push(9);
    assert_eq!(v.into_vec(), vec![9]);
}

#[test]
fn a_bound_of_zero_holds_the_newest_item() {
    let mut v = SizedVector::new(0);
    v.push(1);
    assert_eq!(v.len(), 1);
    v.push(2);
    assert_eq!(v.len(), 1);
    assert_eq!(v.into_vec(), vec![2]);
}

#[test]
fn a_bound_of_one_holds_the_newest_item() {
    let mut v = SizedVector::new(1);
    v.push("a");
    v.push("b");
    v.push("c");
    assert_eq!(v.into_vec(), vec!["c"]);
}

#[test]
fn iter_walks_the_items_and_leaves_them() {
    let mut v = SizedVector::new(3);
    v.push(1);
    v.push(2);
    v.push(3);
    v.push(4);
    let mut walk = v.iter();
    assert_eq!(walk.next(), Some(&2));
    assert_eq!(walk.next(), Some(&3));
    assert_eq!(walk.next(), Some(&4));
    assert_eq!(walk.next(), None);
    assert_eq!(walk.next(), None);
    assert_eq!(v.len(), 3);
}

#[test]
fn into_iter_hands_the_items_out() {
    let mut v = SizedVector::new(2);
    v.push(String::from("a"));
    v.push(String::from("b"));
    let mut walk = v.into_iter();
    assert_eq!(walk.next(), Some(String::from("a")));
    assert_eq!(walk.next(), Some(String::from("b")));
    assert_eq!(walk.next(), None);
}
