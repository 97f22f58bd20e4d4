use lazy_transducer::Endian;
use lazy_transducer::IndexedView;
use lazy_transducer::IntoParIter;
use lazy_transducer::LazyTransducer;
use lazy_transducer::Producer;
use lazy_transducer::ScrollTransducer;

use rayon::iter::plumbing::bridge_unindexed;
use rayon::iter::plumbing::Folder;
use rayon::iter::plumbing::UnindexedConsumer;
use rayon::iter::plumbing::UnindexedProducer;
use rayon::iter::ParallelIterator;
use scroll::Pread;
use scroll::BE;
use std::mem::size_of;

// Adapters that drive the library's splittable range producer with rayon's
// work-stealing pool: split delegates to the balanced midpoint split, and a
// leaf is folded as a plain sequential iterator.
struct ParProducer<'b, V: IndexedView>(Producer<'b, V>);

impl<'b, V: IndexedView + Sync> Iterator for ParProducer<'b, V>
where
    V::Elem: Send,
{
    type Item = V::Elem;

    fn next(&mut self) -> Option<V::Elem> {
        self.0.next()
    }
}

impl<'b, V: IndexedView + Sync> UnindexedProducer for ParProducer<'b, V>
where
    V::Elem: Send,
{
    type Item = V::Elem;

    fn split(self) -> (Self, Option<Self>) {
        let (left, right) = self.0.split();
        (ParProducer(left), right.map(ParProducer))
    }

    fn fold_with<F>(self, folder: F) -> F
    where
        F: Folder<Self::Item>,
    {
        folder.consume_iter(self)
    }
}

struct ParIter<V: IndexedView>(IntoParIter<V>);

impl<V: IndexedView + Send + Sync> ParallelIterator for ParIter<V>
where
    V::Elem: Send,
{
    type Item = V::Elem;

    fn drive_unindexed<C>(self, consumer: C) -> C::Result
    where
        C: UnindexedConsumer<Self::Item>,
    {
        bridge_unindexed(ParProducer(self.0.producer()), consumer)
    }
}

// An 8-byte integer followed by a 2-byte integer: a two-field packed record.
type Derp = (u64, u16);

#[test]
fn parallel_scroll_transducer() {
    let derp = Derp::default();
    let mut bytes: Vec<u8> = Vec::new();
    for _ in 0..5 {
        bytes.extend_from_slice(&derp.0.to_le_bytes());
        bytes.extend_from_slice(&derp.1.to_le_bytes());
    }
    let lt: ScrollTransducer<Derp, Endian> =
        ScrollTransducer::parse_with(&bytes, 5, Endian::Little).unwrap();
    let derps: Vec<Derp> = ParIter(lt.into_par_iter())
        .map(|mut derp| {
            derp.0 = 0xdeadbeef;
            derp
        })
        .collect();
    for d in derps {
        assert_eq!(d.0, 0xdeadbeef);
    }
}

fn get_str(input: &[u8; 15], pos: usize) -> &str {
    input.pread::<&str>(pos).unwrap()
}

#[test]
fn lifetime_transducer() {
    let bytes = b"sixteen candles";
    let lt = LazyTransducer::new(bytes, bytes.len(), get_str);
    let mut it = lt.into_iter();
    let mut idx: usize = 0;
    while let Some(res) = it.next() {
        println!("{}: {:?}", idx, res);
        assert!(true);
        idx += 1;
    }
}

#[test]
fn basic_transducer() {
    let bytes: Vec<u8> = vec![
        0, 0, 0, 0, 0, 0, 0, 1, 0, 0, 0, 2, 0, 0, 0, 3, 0, 0, 0, 4, 0, 0, 0, 5, 0, 0, 0, 6, 0, 0,
        0, 7, 0, 0, 0, 8, 0, 0, 0, 9, 0, 0, 0, 10, 0, 0, 0, 11, 0, 0, 0, 12, 0, 0, 0, 13, 0, 0, 0,
        14, 0, 0, 0, 15, 0, 0, 0, 16, 0, 0, 0, 17, 0, 0, 0, 18, 0xde, 0xad, 0xbe, 0xef,
    ];
    let lt: LazyTransducer<&[u8], u32, _> =
        LazyTransducer::new(&bytes, bytes.len() / size_of::<u32>(), |input: &[u8], idx: usize| {
            let offset = size_of::<u32>() * idx;
            input.pread_with::<u32>(offset, BE).unwrap()
        });

    let deadbeef = lt.get(19).unwrap();
    assert_eq!(deadbeef, 0xdeadbeefu32);
    let mut it = lt.clone().into_iter();
    let mut i: usize = 0;
    while let Some(n) = it.next() {
        if i != lt.len() - 1 {
            assert_eq!(i as u32, n);
        } else {
            assert_eq!(0xdeadbeef, n);
        }
        i += 1;
    }

    let ns1: Vec<u32> = ParIter(lt.clone().into_par_iter()).collect();
    let mut ns2: Vec<u32> = Vec::new();
    let mut it2 = lt.clone().into_iter();
    while let Some(n) = it2.next() {
        ns2.push(n);
    }
    assert_eq!(ns1.len(), ns2.len());
}
