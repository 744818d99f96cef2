use memconstruct::array::{ArrayMemConstructor, ArrayTok};
use memconstruct::layout::{FieldSlot, RecordShape};
use memconstruct::{construct_box, Allocator, HeapConstruct, MemConstruct, MemConstructor};

/// Builds a boxed value through an allocator of its own.
fn heapconstruct<T: MemConstruct, F: FnOnce(MemConstructor<T>) -> MemConstructor<T>>(f: F) -> Box<T> {
    let mut heap = Allocator::new();
    match Box::heapconstruct_in(&mut heap, f) {
        Ok(b) => b,
        Err(e) => panic!("construction failed: {:?}", e),
    }
}

#[derive(Debug, PartialEq)]
struct Morello;

impl MemConstruct for Morello {
    fn shape() -> RecordShape {
        RecordShape::new(0, 1, Vec::new()).unwrap()
    }

    fn assemble(_bytes: &Vec<u8>) -> Morello {
        Morello
    }
}

#[test]
fn basic_boxed_construct_boxed_zst() {
    let f = |z| z;
    let m0 = construct_box::<Morello, _>(f).unwrap();
    println!("{:?}", m0);
    let m1 = heapconstruct(f);
    assert_eq!(m0, m1);
}

#[derive(Debug, PartialEq)]
struct Forello {
    x: i32,
    hello_world: f32,
    m: [u8; 4],
}

impl MemConstruct for Forello {
    fn shape() -> RecordShape {
        let fields = vec![
            FieldSlot { offset: 0, size: 4 },
            FieldSlot { offset: 4, size: 4 },
            FieldSlot { offset: 8, size: 4 },
        ];
        RecordShape::new(12, 4, fields).unwrap()
    }

    fn assemble(bytes: &Vec<u8>) -> Forello {
        Forello {
            x: i32::from_le_bytes([bytes[0], bytes[1], bytes[2], bytes[3]]),
            hello_world: f32::from_le_bytes([bytes[4], bytes[5], bytes[6], bytes[7]]),
            m: [bytes[8], bytes[9], bytes[10], bytes[11]],
        }
    }
}

trait ForelloSetters {
    fn set_x(self, x: i32) -> Self;
    fn set_hello_world(self, v: f32) -> Self;
    fn set_m(self, m: [u8; 4]) -> Self;
}

impl ForelloSetters for MemConstructor<Forello> {
    fn set_x(self, x: i32) -> Self {
        self.set_field(0, &x.to_le_bytes().to_vec())
    }

    fn set_hello_world(self, v: f32) -> Self {
        self.set_field(1, &v.to_le_bytes().to_vec())
    }

    fn set_m(self, m: [u8; 4]) -> Self {
        self.set_field(2, &m.to_vec())
    }
}

#[test]
fn basic_boxed_construct_boxed_struct() {
    let construct = |c: MemConstructor<Forello>| c.set_x(10).set_hello_world(2.3).set_m([5u8; 4]);
    let f0 = construct_box::<Forello, _>(construct).unwrap();
    println!("{:?}", f0);
    let f1 = heapconstruct(construct);
    assert_eq!(f0, f1);
}

#[derive(Debug, PartialEq)]
struct Borello(i32, f32, [u8; 4]);

impl MemConstruct for Borello {
    fn shape() -> RecordShape {
        let fields = vec![
            FieldSlot { offset: 0, size: 4 },
            FieldSlot { offset: 4, size: 4 },
            FieldSlot { offset: 8, size: 4 },
        ];
        RecordShape::new(12, 4, fields).unwrap()
    }

    fn assemble(bytes: &Vec<u8>) -> Borello {
        Borello(
            i32::from_le_bytes([bytes[0], bytes[1], bytes[2], bytes[3]]),
            f32::from_le_bytes([bytes[4], bytes[5], bytes[6], bytes[7]]),
            [bytes[8], bytes[9], bytes[10], bytes[11]],
        )
    }
}

trait BorelloSetters {
    fn set_0(self, v: i32) -> Self;
    fn set_1(self, v: f32) -> Self;
    fn set_2(self, v: [u8; 4]) -> Self;
}

impl BorelloSetters for MemConstructor<Borello> {
    fn set_0(self, v: i32) -> Self {
        self.set_field(0, &v.to_le_bytes().to_vec())
    }

    fn set_1(self, v: f32) -> Self {
        self.set_field(1, &v.to_le_bytes().to_vec())
    }

    fn set_2(self, v: [u8; 4]) -> Self {
        self.set_field(2, &v.to_vec())
    }
}

#[test]
fn basic_boxed_construct_boxed_tuple_struct() {
    let construct = |c: MemConstructor<Borello>| c.set_0(42).set_1(6.9).set_2([4u8; 4]);
    let b0 = construct_box::<Borello, _>(construct).unwrap();
    println!("{:?}", b0);
    let b1 = heapconstruct(construct);
    assert_eq!(b0, b1);
}

/// Twenty integers stored one after another, built field by field through the driver.
#[derive(Debug, PartialEq)]
struct Arr([i32; 20]);

impl MemConstruct for Arr {
    fn shape() -> RecordShape {
        let fields = (0..20).map(|i| FieldSlot { offset: 4 * i, size: 4 }).collect();
        RecordShape::new(80, 4, fields).unwrap()
    }

    fn assemble(bytes: &Vec<u8>) -> Arr {
        let mut a = [0i32; 20];
        for (i, x) in a.iter_mut().enumerate() {
            let b = &bytes[4 * i..4 * i + 4];
            *x = i32::from_le_bytes([b[0], b[1], b[2], b[3]]);
        }
        Arr(a)
    }
}

trait ArrSetters {
    fn set_all<F: FnMut(usize) -> i32>(self, f: F) -> Self;
}

impl ArrSetters for MemConstructor<Arr> {
    fn set_all<F: FnMut(usize) -> i32>(self, mut f: F) -> Self {
        let mut c = self;
        for i in 0..20 {
            c = c.set_field(i, &f(i).to_le_bytes().to_vec());
        }
        c
    }
}

/// Builds an array of 20 integers, every element through its own element session.
fn array_of_42_by_elements() -> Vec<i32> {
    let mut heap = Allocator::new();
    let session = ArrayMemConstructor::<ArrayTok, i32, 20>::new(&mut heap).unwrap();
    match session.memconstruct_all(&mut heap, |c| c.set(42)) {
        Ok(a) => a.into_vec(),
        Err(fail) => panic!("element {} was left incomplete", fail.index),
    }
}

#[test]
fn basic_boxed_construct_boxed_array() {
    let arr0 = construct_box::<Arr, _>(|c| c.set_all(|_| 42)).unwrap();
    println!("{:?}", arr0);
    let arr1 = heapconstruct::<Arr, _>(|c| c.set_all(|_| 42));
    assert_eq!(arr0, arr1);
    assert_eq!(*arr0, Arr([42i32; 20]));
    let by_elements = array_of_42_by_elements();
    let mut heap = Allocator::new();
    let by_index = ArrayMemConstructor::<ArrayTok, i32, 20>::new(&mut heap)
        .unwrap()
        .set_all(&mut heap, |_| 42)
        .into_vec();
    assert_eq!(by_elements, by_index);
    assert_eq!(by_elements, vec![42i32; 20]);
    assert_eq!(&by_elements[..], &arr0.0[..]);
}

#[test]
fn box_heap_construct() {
    let m = heapconstruct::<Morello, _>(|m| m);
    assert_eq!(&*m, &Morello);
    let f = heapconstruct::<Forello, _>(|f| f.set_x(10).set_hello_world(12.3).set_m([1, 9, 8, 7]));
    assert_eq!(
        &*f,
        &Forello {
            x: 10,
            hello_world: 12.3,
            m: [1, 9, 8, 7]
        }
    );
    let b = heapconstruct::<Borello, _>(|b| b.set_0(10).set_1(12.3).set_2([1, 9, 8, 7]));
    assert_eq!(&*b, &Borello(10, 12.3, [1, 9, 8, 7]));
    let arr = heapconstruct::<Arr, _>(|c| c.set_all(|_| 10));
    assert_eq!(&arr.0, &[10i32; 20]);
    let mut heap = Allocator::new();
    let elems = ArrayMemConstructor::<ArrayTok, i32, 20>::new(&mut heap)
        .unwrap()
        .set_all(&mut heap, |_| 10)
        .into_vec();
    assert_eq!(&elems[..], &[10i32; 20]);
}
