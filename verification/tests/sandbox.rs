use lessons::sandbox::generics_1::{CanMonitor, Monitorable, MonitorableComponent};
use lessons::sandbox::iterators_1::{shoes_in_size, shoes_into_iter, MyVec, Shoe};

#[test]
fn it_is_composable() {
    let disk_space = Monitorable::<MonitorableComponent>::new(MonitorableComponent::DiskSpace);
    assert_eq!(disk_space.context, MonitorableComponent::DiskSpace);
    assert_eq!(disk_space.get_context(), MonitorableComponent::DiskSpace);

    let free_mem = Monitorable::<MonitorableComponent>::new(MonitorableComponent::FreeMem);
    assert_eq!(free_mem.context, MonitorableComponent::FreeMem);
    assert_eq!(free_mem.get_context(), MonitorableComponent::FreeMem);
}

#[test]
fn filters_by_size_wrapped() {
    let shoes = MyVec(vec![
        Shoe {
            size: 10,
            style: String::from("sneaker"),
        },
        Shoe {
            size: 13,
            style: String::from("sandal"),
        },
        Shoe {
            size: 10,
            style: String::from("boot"),
        },
    ]);

    let in_my_size = shoes_into_iter(shoes, 10);

    assert_eq!(
        in_my_size,
        MyVec(vec![
            Shoe {
                size: 10,
                style: String::from("sneaker"),
            },
            Shoe {
                size: 10,
                style: String::from("boot"),
            },
        ])
    );
}

#[test]
fn mod_filters_by_size() {
    let shoes = vec![
        Shoe {
            size: 10,
            style: String::from("sneaker"),
        },
        Shoe {
            size: 13,
            style: String::from("sandal"),
        },
        Shoe {
            size: 10,
            style: String::from("boot"),
        },
    ];

    let in_my_size = shoes_in_size(shoes, 10);

    assert_eq!(
        in_my_size,
        vec![
            Shoe {
                size: 10,
                style: String::from("sneaker"),
            },
            Shoe {
                size: 10,
                style: String::from("boot"),
            },
        ]
    );
}

#[test]
fn wrapped_walk_copies_the_rest() {
    let shoes = MyVec(vec![
        Shoe {
            size: 10,
            style: String::from("sneaker"),
        },
        Shoe {
            size: 13,
            style: String::from("sandal"),
        },
    ]);
    let mut iter = shoes.into_iter();
    assert_eq!(iter.next().map(|shoe| shoe.size), Some(10));
    let rest = MyVec::from_iter(iter);
    assert_eq!(
        rest,
        MyVec(vec![Shoe {
            size: 13,
            style: String::from("sandal"),
        }])
    );
}
