use std::borrow::{Borrow, BorrowMut};
use std::cmp::Ordering;
use std::collections::hash_map::DefaultHasher;
use std::hash::{Hash, Hasher};
use std::str::FromStr;

use forward::const_string::{ConstString, STACK_LEN_MAX};

const ANY_LEN: [&str; 20] = [
    "",
    "1",
    "12",
    "123",
    "1234",
    "12345",
    "123456",
    "1234567",
    "12345678",
    "123456789",
    "1234567890",
    "1234567890A",
    "1234567890AB",
    "1234567890ABC",
    "1234567890ABCD",
    "1234567890ABCDE",
    "1234567890ABCDEF",
    "1234567890ABCDEFX",
    "1234567890ABCDEFXY",
    "1234567890ABCDEFXYZ",
];

fn hash_of<T: Hash + ?Sized>(value: &T) -> u64 {
    let mut hasher = DefaultHasher::new();
    value.hash(&mut hasher);
    hasher.finish()
}

#[test]
fn test_any_len_as_str() {
    for str in ANY_LEN {
        assert_eq!(ConstString::new(str).as_str(), str);
    }
}

#[test]
fn test_any_len_into_string() {
    for str in ANY_LEN {
        assert_eq!(String::from(ConstString::new(str)), str);
    }
}

#[test]
fn test_short_const_str() {
    let cs = ConstString::new("012345678912345");
    println!("cst: {:p}", &cs);
    let slice = cs.as_str();
    println!("ptr: {:p}, len: {}", slice.as_ptr(), slice.len());
    println!("str: {}", cs.as_str());
    assert_eq!(slice, "012345678912345");
}

#[test]
fn test_long_const_str() {
    let cs = ConstString::new("0123456789123456");
    println!("cst: {:p}", &cs);
    let slice = cs.as_str();
    println!("ptr: {:p}, len: {}", slice.as_ptr(), slice.len());
    println!("str: {}", cs.as_str());
    assert_eq!(slice, "0123456789123456");
}

#[test]
fn short_one() {
    let cs = ConstString::new("Short One");
    assert_eq!(cs.as_str(), "Short One");
}

#[test]
fn longer_one_becomes_a_string_of_its_length() {
    let cs = ConstString::new("This is a longer string!");
    let string = cs.into_string();
    assert_eq!(string, "This is a longer string!");
    assert_eq!(string.capacity(), string.len());
}

#[test]
fn len_counts_bytes() {
    for str in ANY_LEN {
        assert_eq!(ConstString::new(str).len(), str.len());
    }
    assert_eq!(ConstString::new("字").len(), 3);
    assert_eq!(STACK_LEN_MAX, 15);
}

#[test]
fn short_ones_lie_in_place() {
    let short = ConstString::new("五个字的串"); // fifteen bytes
    let long = ConstString::new("五个字的串+");
    let lies_in = |cs: &ConstString| {
        let start = std::ptr::from_ref(cs).addr();
        let at = cs.as_str().as_ptr().addr();
        start <= at && at < start + size_of::<ConstString>()
    };
    assert!(lies_in(&short));
    assert!(!lies_in(&long));
    assert!(lies_in(&short.clone()));
    assert!(!lies_in(&long.clone()));
}

#[test]
fn characters_are_replaced_by_as_many_bytes() {
    for str in ["short", "not such a short string"] {
        let mut cs = ConstString::new(str);
        cs.as_mut_str().make_ascii_uppercase();
        assert_eq!(cs.as_str(), str.to_uppercase());
        assert_eq!(cs.len(), str.len());
    }
}

#[test]
fn borrowed_as_text() {
    let mut cs = ConstString::new("text");
    assert_eq!(&*cs, "text");
    assert_eq!(cs.as_ref() as &str, "text");
    assert_eq!(<ConstString as Borrow<str>>::borrow(&cs), "text");
    (*cs).make_ascii_uppercase();
    assert_eq!(cs.as_str(), "TEXT");
    cs.as_mut().make_ascii_lowercase();
    assert_eq!(cs.as_str(), "text");
    <ConstString as BorrowMut<str>>::borrow_mut(&mut cs).make_ascii_uppercase();
    assert_eq!(cs.as_str(), "TEXT");
}

#[test]
fn made_of_text() {
    assert_eq!(ConstString::default().as_str(), "");
    assert_eq!(ConstString::from("text").as_str(), "text");
    assert_eq!(ConstString::from("text".to_string()).as_str(), "text");
    assert_eq!(ConstString::from_str("text").unwrap().as_str(), "text");
    assert_eq!(ConstString::new("a string that is longer").clone().as_str(), "a string that is longer");
}

#[test]
fn equal_as_texts() {
    for a in ANY_LEN {
        for b in ANY_LEN {
            assert_eq!(ConstString::new(a) == ConstString::new(b), a == b);
        }
    }
    assert!(ConstString::new("a") != ConstString::new("A"));
}

#[test]
fn ordered_as_texts() {
    let texts = ["", "a", "ab", "b", "ba", "字", "字体", "a string that is longer", "a string"];
    for a in texts {
        for b in texts {
            assert_eq!(ConstString::new(a).partial_cmp(&ConstString::new(b)), a.partial_cmp(b));
        }
    }
    assert_eq!(
        ConstString::new("ab").partial_cmp(&ConstString::new("b")),
        Some(Ordering::Less),
    );
    assert!(ConstString::new("a") < ConstString::new("ab"));
}

#[test]
fn hashed_as_texts() {
    for str in ANY_LEN {
        assert_eq!(hash_of(&ConstString::new(str)), hash_of(str));
    }
    assert!(hash_of(&ConstString::new("a")) != hash_of("b"));
}
