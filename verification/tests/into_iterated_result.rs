use k4q::iter::into_iterated_result::IntoIteratedResultEx;

#[test]
fn converts_error_into_iterator_with_error() {
    // given
    let error_message = "an error";
    let error = Result::<Box<dyn Iterator<Item = &str>>, &str>::Err(error_message);

    // when
    let mut iter = error.into_iterated_result();

    // then
    assert_eq!(error_message, iter.next().unwrap().err().unwrap());
    assert_eq!(false, iter.next().is_some());
}

#[test]
fn converts_success_iterator_result_into_iterator_of_success() {
    // given
    let sequence = [1, 2, 3];
    let success = Result::<Box<dyn Iterator<Item = &i32>>, &str>::Ok(Box::new(sequence.iter()));

    // when
    let mut iter = success.into_iterated_result();

    // then
    assert_eq!(&sequence[0], iter.next().unwrap().ok().unwrap());
    assert_eq!(&sequence[1], iter.next().unwrap().ok().unwrap());
    assert_eq!(&sequence[2], iter.next().unwrap().ok().unwrap());
    assert_eq!(false, iter.next().is_some());
}

#[test]
fn error_is_yielded_once_and_never_again() {
    let failed = Result::<std::vec::IntoIter<u8>, String>::Err(String::from("no such partition"));
    let mut sequence = failed.into_iterated_result();
    assert_eq!(Some(Err(String::from("no such partition"))), sequence.next());
    assert_eq!(None, sequence.next());
    assert_eq!(None, sequence.next());
}

#[test]
fn items_are_wrapped_in_their_order() {
    let items = Result::<std::vec::IntoIter<u8>, String>::Ok(vec![7u8, 8, 9].into_iter());
    let mut sequence = items.into_iterated_result();
    assert_eq!(Some(Ok(7)), sequence.next());
    assert_eq!(Some(Ok(8)), sequence.next());
    assert_eq!(Some(Ok(9)), sequence.next());
    assert_eq!(None, sequence.next());
}

#[test]
fn empty_iterator_gives_empty_sequence() {
    let items = Result::<std::vec::IntoIter<u8>, String>::Ok(Vec::new().into_iter());
    let mut sequence = items.into_iterated_result();
    assert_eq!(None, sequence.next());
}

#[test]
fn nothing_is_pulled_before_it_is_asked_for() {
    let pulled = std::cell::Cell::new(0u32);
    let source = (1..=3).map(|n: u32| {
        pulled.set(pulled.get() + 1);
        n
    });
    let mut sequence = Result::<_, String>::Ok(source).into_iterated_result();
    assert_eq!(0, pulled.get());
    assert_eq!(Some(Ok(1)), sequence.next());
    assert_eq!(1, pulled.get());
    assert_eq!(Some(Ok(2)), sequence.next());
    assert_eq!(2, pulled.get());
}
