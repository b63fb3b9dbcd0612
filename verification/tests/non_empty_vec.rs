use validation::NonEmptyVec;

fn elements<E: Clone>(v: &NonEmptyVec<E>) -> Vec<E> {
    let mut all = vec![v.head.clone()];
    all.extend(v.tail.iter().cloned());
    all
}

#[test]
fn of_holds_one_element() {
    let v = NonEmptyVec::of(7);
    assert_eq!(v.head, 7);
    assert!(v.tail.is_empty());
    assert_eq!(elements(&v), vec![7]);
}

#[test]
fn from_wraps_like_of() {
    let converted: NonEmptyVec<&str> = "only".into();
    assert_eq!(converted, NonEmptyVec::of("only"));
    assert_eq!(NonEmptyVec::from(3u8), NonEmptyVec { head: 3u8, tail: vec![] });
}

#[test]
fn append_keeps_both_orders() {
    let mut left = NonEmptyVec { head: 1, tail: vec![2, 3] };
    let right = NonEmptyVec { head: 4, tail: vec![5] };
    left.append(right);
    assert_eq!(left, NonEmptyVec { head: 1, tail: vec![2, 3, 4, 5] });
}

#[test]
fn append_single_to_single() {
    let mut left = NonEmptyVec::of("a");
    left.append(NonEmptyVec::of("b"));
    assert_eq!(left.head, "a");
    assert_eq!(left.tail, vec!["b"]);
}

#[test]
fn append_is_associative_on_elements() {
    let a = NonEmptyVec { head: 1, tail: vec![2] };
    let b = NonEmptyVec::of(3);
    let c = NonEmptyVec { head: 4, tail: vec![5, 6] };

    let mut left_first = a.clone();
    left_first.append(b.clone());
    left_first.append(c.clone());

    let mut right_first = b;
    right_first.append(c);
    let mut nested = a;
    nested.append(right_first);

    assert_eq!(left_first, nested);
    assert_eq!(elements(&nested), vec![1, 2, 3, 4, 5, 6]);
}

#[test]
fn append_never_shrinks() {
    let mut v = NonEmptyVec::of(0);
    for i in 1..5 {
        let before = 1 + v.tail.len();
        v.append(NonEmptyVec::of(i));
        assert_eq!(1 + v.tail.len(), before + 1);
    }
    assert_eq!(elements(&v), vec![0, 1, 2, 3, 4]);
}

#[test]
fn map_keeps_length_and_order() {
    let v = NonEmptyVec { head: 1, tail: vec![2, 3] };
    let mapped = v.map(|x| x * 10);
    assert_eq!(mapped, NonEmptyVec { head: 10, tail: vec![20, 30] });
}

#[test]
fn map_single_element() {
    let mapped = NonEmptyVec::of("abc").map(|s| s.len());
    assert_eq!(mapped, NonEmptyVec { head: 3, tail: vec![] });
}

#[test]
fn map_calls_in_order_once_each() {
    let v = NonEmptyVec { head: 'a', tail: vec!['b', 'c'] };
    let mut seen = Vec::new();
    let mapped = v.map(|c| {
        seen.push(c);
        c.to_ascii_uppercase()
    });
    assert_eq!(seen, vec!['a', 'b', 'c']);
    assert_eq!(mapped, NonEmptyVec { head: 'A', tail: vec!['B', 'C'] });
}

#[test]
fn map_changes_the_element_type() {
    let v = NonEmptyVec { head: 1u8, tail: vec![2u8] };
    let mapped: NonEmptyVec<String> = v.map(|x| format!("#{}", x));
    assert_eq!(mapped.head, "#1");
    assert_eq!(mapped.tail, vec!["#2".to_string()]);
}
