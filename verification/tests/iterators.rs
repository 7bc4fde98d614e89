use lessons::iterators::{shoes_in_size, shoes_in_size_iterable, MyVec, NormalShoe, Shoe};

#[test]
fn filters_by_size_wrapped_iter() {
    let shoes = MyVec(vec![
        Shoe { size: 10, id: 100 },
        Shoe { size: 13, id: 101 },
        Shoe { size: 10, id: 102 },
    ]);

    let in_my_size = shoes_in_size_iterable(shoes, 10);

    assert_eq!(
        in_my_size,
        MyVec(vec![Shoe { size: 10, id: 100 }, Shoe { size: 10, id: 102 }])
    );
}

#[test]
fn lib_filters_by_size() {
    let shoes = vec![
        NormalShoe {
            size: 10,
            style: String::from("sneaker"),
        },
        NormalShoe {
            size: 13,
            style: String::from("sandal"),
        },
        NormalShoe {
            size: 10,
            style: String::from("boot"),
        },
    ];

    let in_my_size = shoes_in_size(shoes, 10);

    assert_eq!(
        in_my_size,
        vec![
            NormalShoe {
                size: 10,
                style: String::from("sneaker"),
            },
            NormalShoe {
                size: 10,
                style: String::from("boot"),
            },
        ]
    );
}

#[test]
fn no_shoe_fits() {
    let shoes = MyVec(vec![Shoe { size: 10, id: 1 }, Shoe { size: 13, id: 2 }]);
    assert_eq!(shoes_in_size_iterable(shoes, 11), MyVec(vec![]));
    assert_eq!(shoes_in_size(vec![], 10), vec![]);
}

#[test]
fn iterator_walks_once() {
    let shoes = MyVec(vec![Shoe { size: 10, id: 1 }, Shoe { size: 13, id: 2 }]);
    let mut iter = shoes.iter();
    assert_eq!(iter.next(), Some(&Shoe { size: 10, id: 1 }));
    let rest = MyVec::from_iter(iter);
    assert_eq!(rest, MyVec(vec![Shoe { size: 13, id: 2 }]));
    let mut iter = shoes.iter();
    assert!(iter.next().is_some());
    assert!(iter.next().is_some());
    assert_eq!(iter.next(), None);
    assert_eq!(iter.next(), None);
    assert_eq!(MyVec::from_iter(iter), MyVec::new());
}
