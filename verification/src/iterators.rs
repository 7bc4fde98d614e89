//! Shoes with a number of their own, picked by size through a hand-written
//! iterator, and shoes with a style, picked by size out of a vector.

use vstd::prelude::*;

verus! {

#[derive(Debug, PartialEq, Copy, Clone)]
pub struct Shoe {
    pub size: u32,
    pub id: u32,
}

#[derive(Debug, PartialEq)]
pub struct NormalShoe {
    pub size: u32,
    pub style: String,
}

/// The shoes of size `shoe_size` among `shoes`, in their order.
pub open spec fn normal_in_size(shoes: Seq<NormalShoe>, shoe_size: u32) -> Seq<NormalShoe> {
    shoes.filter(|shoe: NormalShoe| shoe.size == shoe_size)
}

/// The shoes of size `shoe_size` among `shoes`, in their order.
pub open spec fn in_size(shoes: Seq<Shoe>, shoe_size: u32) -> Seq<Shoe> {
    shoes.filter(|shoe: Shoe| shoe.size == shoe_size)
}

/// The shoes of size `shoe_size`, in the order in which they came.
pub fn shoes_in_size(shoes: Vec<NormalShoe>, shoe_size: u32) -> (fitting: Vec<NormalShoe>)
    ensures
        fitting@ == normal_in_size(shoes@, shoe_size),
{
    let mut fitting: Vec<NormalShoe> = Vec::new();
    let ghost all = shoes@;
    assert(all.take(0) =~= Seq::<NormalShoe>::empty());
    for shoe in it: shoes
        invariant
            it.seq() == all,
            fitting@ == normal_in_size(all.take(it.index() as int), shoe_size),
    {
        proof {
            let seen = all.take(it.index() as int);
            assert(all.take(it.index() + 1) =~= seen.push(shoe));
            lemma_normal_in_size_push(seen, shoe, shoe_size);
        }
        if shoe.size == shoe_size {
            fitting.push(shoe);
        }
    }
    assert(all.take(all.len() as int) =~= all);
    fitting
}

/// Filtering a sequence with one more shoe at its end: the shoe is added
/// to the result exactly where it fits.
pub proof fn lemma_normal_in_size_push(shoes: Seq<NormalShoe>, shoe: NormalShoe, shoe_size: u32)
    ensures
        normal_in_size(shoes.push(shoe), shoe_size) == if shoe.size == shoe_size {
            normal_in_size(shoes, shoe_size).push(shoe)
        } else {
            normal_in_size(shoes, shoe_size)
        },
{
    reveal(Seq::filter);
    assert(shoes.push(shoe).drop_last() =~= shoes);
}

/// Filtering a sequence with one more shoe at its end: the shoe is added
/// to the result exactly where it fits.
pub proof fn lemma_in_size_push(shoes: Seq<Shoe>, shoe: Shoe, shoe_size: u32)
    ensures
        in_size(shoes.push(shoe), shoe_size) == if shoe.size == shoe_size {
            in_size(shoes, shoe_size).push(shoe)
        } else {
            in_size(shoes, shoe_size)
        },
{
    reveal(Seq::filter);
    assert(shoes.push(shoe).drop_last() =~= shoes);
}

/// A collection in a wrapper of its own.
#[derive(PartialEq, Debug, Copy, Clone)]
pub struct MyVec<T>(pub T);

/// A walk over a wrapped collection, from its first item to its last.
pub struct MyVecIter<'a, T> {
    vector: &'a T,
    cur: usize,
}

impl<'a> MyVecIter<'a, Vec<Shoe>> {
    /// All the shoes of the collection that is walked over.
    pub closed spec fn items(&self) -> Seq<Shoe> {
        self.vector@
    }

    /// How many shoes were handed out.
    pub closed spec fn position(&self) -> nat {
        self.cur as nat
    }

    /// The shoes that are still to come.
    pub open spec fn remaining(&self) -> Seq<Shoe> {
        if self.position() <= self.items().len() {
            self.items().skip(self.position() as int)
        } else {
            Seq::empty()
        }
    }

    /// The next shoe, or `None` once every shoe was handed out.
    pub fn next(&mut self) -> (item: Option<&'a Shoe>)
        ensures
            final(self).items() == old(self).items(),
            old(self).position() < old(self).items().len() ==> {
                &&& item == Some(&old(self).items()[old(self).position() as int])
                &&& final(self).position() == old(self).position() + 1
            },
            old(self).position() >= old(self).items().len() ==> {
                &&& item is None
                &&& final(self).position() == old(self).position()
            },
    {
        let inner_vec = self.vector;
        if self.cur < inner_vec.len() {
            self.cur += 1;
            return Some(&inner_vec[self.cur - 1]);
        } else {
            return None;
        }
    }
}

impl MyVec<Vec<Shoe>> {
    /// An empty collection.
    pub fn new() -> (shoes: Self)
        ensures
            shoes.0@ == Seq::<Shoe>::empty(),
    {
        MyVec(Vec::<Shoe>::new())
    }

    /// A walk over the collection that starts at its first shoe.
    pub fn iter(&self) -> (iter: MyVecIter<'_, Vec<Shoe>>)
        ensures
            iter.items() == self.0@,
            iter.position() == 0,
    {
        MyVecIter::<Vec<Shoe>> { vector: &self.0, cur: 0 }
    }

    /// Adds `elem` at the end.
    pub fn add(&mut self, elem: Shoe)
        ensures
            final(self).0@ == old(self).0@.push(elem),
    {
        self.0.push(elem);
    }

    /// Collects copies of the shoes that `iter` has still to hand out.
    pub fn from_iter(iter: MyVecIter<'_, Vec<Shoe>>) -> (shoes: Self)
        ensures
            shoes.0@ == iter.remaining(),
    {
        let mut iter = iter;
        let mut c = MyVec::<Vec<Shoe>>::new();
        let ghost start = iter.position();
        let ghost all = iter.items();
        if iter.cur > iter.vector.len() {
            return c;
        }
        assert(all.subrange(start as int, start as int) =~= Seq::<Shoe>::empty());
        loop
            invariant
                iter.items() == all,
                start <= iter.position() <= all.len(),
                c.0@ == all.subrange(start as int, iter.position() as int),
            ensures
                iter.position() == all.len(),
            decreases all.len() - iter.position(),
        {
            let ghost at = iter.position() as int;
            match iter.next() {
                Some(i) => {
                    c.add(i.clone());
                    assert(all.subrange(start as int, at + 1) =~= all.subrange(
                        start as int,
                        at,
                    ).push(all[at]));
                },
                None => {
                    break ;
                },
            }
        }
        assert(all.subrange(start as int, all.len() as int) =~= all.skip(start as int));
        c
    }
}

/// The shoes of size `shoe_size` in the collection, copied in their order.
pub fn shoes_in_size_iterable(shoes: MyVec<Vec<Shoe>>, shoe_size: u32) -> (fitting: MyVec<Vec<Shoe>>)
    ensures
        fitting.0@ == in_size(shoes.0@, shoe_size),
{
    let mut iter = shoes.iter();
    let mut fitting = MyVec::<Vec<Shoe>>::new();
    let ghost all = shoes.0@;
    assert(all.take(0) =~= Seq::<Shoe>::empty());
    loop
        invariant
            iter.items() == all,
            iter.position() <= all.len(),
            fitting.0@ == in_size(all.take(iter.position() as int), shoe_size),
        ensures
            iter.position() == all.len(),
        decreases all.len() - iter.position(),
    {
        let ghost at = iter.position() as int;
        match iter.next() {
            Some(shoe) => {
                proof {
                    assert(all.take(at + 1) =~= all.take(at).push(*shoe));
                    lemma_in_size_push(all.take(at), *shoe, shoe_size);
                }
                if shoe.size == shoe_size {
                    fitting.add(shoe.clone());
                }
            },
            None => {
                break ;
            },
        }
    }
    assert(all.take(all.len() as int) =~= all);
    fitting
}

} // verus!
