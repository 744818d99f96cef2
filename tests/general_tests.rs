use memconstruct::layout::{FieldSlot, RecordShape};
use memconstruct::{construct_box, MemConstruct, MemConstructor};

#[derive(Debug, PartialEq)]
struct Morello;

impl MemConstruct for Morello {
    fn shape() -> RecordShape {
        RecordShape::new(0, 1, Vec::new()).unwrap()
    }

    fn assemble(_bytes: &Vec<u8>) -> Morello {
        Morello
    }
}

#[test]
fn general_tests_construct_boxed_zst() {
    let morello = construct_box::<Morello, _>(|z| z);
    println!("{:?}", morello);
    assert_eq!(*morello.unwrap(), Morello);
}

#[derive(Debug, PartialEq)]
struct Forello {
    x: i32,
    hello_world: f32,
    m: [u8; 4],
}

impl MemConstruct for Forello {
    fn shape() -> RecordShape {
        let fields = vec![
            FieldSlot { offset: 0, size: 4 },
            FieldSlot { offset: 4, size: 4 },
            FieldSlot { offset: 8, size: 4 },
        ];
        RecordShape::new(12, 4, fields).unwrap()
    }

    fn assemble(bytes: &Vec<u8>) -> Forello {
        Forello {
            x: i32::from_le_bytes([bytes[0], bytes[1], bytes[2], bytes[3]]),
            hello_world: f32::from_le_bytes([bytes[4], bytes[5], bytes[6], bytes[7]]),
            m: [bytes[8], bytes[9], bytes[10], bytes[11]],
        }
    }
}

trait ForelloSetters {
    fn set_x(self, x: i32) -> Self;
    fn set_hello_world(self, v: f32) -> Self;
    fn set_m(self, m: [u8; 4]) -> Self;
}

impl ForelloSetters for MemConstructor<Forello> {
    fn set_x(self, x: i32) -> Self {
        self.set_field(0, &x.to_le_bytes().to_vec())
    }

    fn set_hello_world(self, v: f32) -> Self {
        self.set_field(1, &v.to_le_bytes().to_vec())
    }

    fn set_m(self, m: [u8; 4]) -> Self {
        self.set_field(2, &m.to_vec())
    }
}

#[test]
fn general_tests_construct_boxed_struct() {
    let forello = construct_box::<Forello, _>(|c| c.set_x(10).set_hello_world(2.3).set_m([5u8; 4]));
    println!("{:?}", forello);
    assert_eq!(*forello.unwrap(), Forello { x: 10, hello_world: 2.3, m: [5u8; 4] });
}

#[derive(Debug, PartialEq)]
struct Borello(i32, f32, [u8; 4]);

impl MemConstruct for Borello {
    fn shape() -> RecordShape {
        let fields = vec![
            FieldSlot { offset: 0, size: 4 },
            FieldSlot { offset: 4, size: 4 },
            FieldSlot { offset: 8, size: 4 },
        ];
        RecordShape::new(12, 4, fields).unwrap()
    }

    fn assemble(bytes: &Vec<u8>) -> Borello {
        Borello(
            i32::from_le_bytes([bytes[0], bytes[1], bytes[2], bytes[3]]),
            f32::from_le_bytes([bytes[4], bytes[5], bytes[6], bytes[7]]),
            [bytes[8], bytes[9], bytes[10], bytes[11]],
        )
    }
}

trait BorelloSetters {
    fn set_0(self, v: i32) -> Self;
    fn set_1(self, v: f32) -> Self;
    fn set_2(self, v: [u8; 4]) -> Self;
}

impl BorelloSetters for MemConstructor<Borello> {
    fn set_0(self, v: i32) -> Self {
        self.set_field(0, &v.to_le_bytes().to_vec())
    }

    fn set_1(self, v: f32) -> Self {
        self.set_field(1, &v.to_le_bytes().to_vec())
    }

    fn set_2(self, v: [u8; 4]) -> Self {
        self.set_field(2, &v.to_vec())
    }
}

#[test]
fn general_tests_construct_boxed_tuple_struct() {
    let borello = construct_box::<Borello, _>(|c| c.set_0(42).set_1(6.9).set_2([4u8; 4]));
    println!("{:?}", borello);
    assert_eq!(*borello.unwrap(), Borello(42, 6.9, [4u8; 4]));
}

/// Twenty integers stored one after another, built field by field through the driver.
#[derive(Debug, PartialEq)]
struct Arr([i32; 20]);

impl MemConstruct for Arr {
    fn shape() -> RecordShape {
        let fields = (0..20).map(|i| FieldSlot { offset: 4 * i, size: 4 }).collect();
        RecordShape::new(80, 4, fields).unwrap()
    }

    fn assemble(bytes: &Vec<u8>) -> Arr {
        let mut a = [0i32; 20];
        for (i, x) in a.iter_mut().enumerate() {
            let b = &bytes[4 * i..4 * i + 4];
            *x = i32::from_le_bytes([b[0], b[1], b[2], b[3]]);
        }
        Arr(a)
    }
}

trait ArrSetters {
    fn set_all<F: FnMut(usize) -> i32>(self, f: F) -> Self;
}

impl ArrSetters for MemConstructor<Arr> {
    fn set_all<F: FnMut(usize) -> i32>(self, mut f: F) -> Self {
        let mut c = self;
        for i in 0..20 {
            c = c.set_field(i, &f(i).to_le_bytes().to_vec());
        }
        c
    }
}

#[test]
fn general_tests_construct_boxed_array() {
    let arr = construct_box::<Arr, _>(|c| c.set_all(|_| 42));
    println!("{:?}", arr);
    assert_eq!(*arr.unwrap(), Arr([42i32; 20]));
}
