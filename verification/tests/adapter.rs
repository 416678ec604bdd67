use rand_os::{GetRandomValues, OsRng, RandomFillSync, GET_RANDOM_VALUES_QUOTA};
use std::cell::RefCell;

/// A stand-in for a host module: it writes one byte value everywhere and
/// records the length of each buffer it was handed.
#[derive(Debug, Clone)]
struct Module {
    byte: u8,
    lengths: RefCell<Vec<usize>>,
}

impl Module {
    fn writing(byte: u8) -> Module {
        Module { byte, lengths: RefCell::new(Vec::new()) }
    }
}

impl RandomFillSync for Module {
    fn random_fill_sync(&self, dest: &mut [u8]) {
        self.lengths.borrow_mut().push(dest.len());
        for slot in dest.iter_mut() {
            *slot = self.byte;
        }
    }
}

/// A stand-in for a browser's `crypto` object: it counts upwards from a
/// first byte and records the length of each buffer it was handed.
#[derive(Debug, Clone)]
struct Crypto {
    first: u8,
    lengths: RefCell<Vec<usize>>,
}

impl Crypto {
    fn counting_from(first: u8) -> Crypto {
        Crypto { first, lengths: RefCell::new(Vec::new()) }
    }
}

impl GetRandomValues for Crypto {
    fn get_random_values(&self, dest: &mut [u8]) {
        assert!(dest.len() <= 65536);
        self.lengths.borrow_mut().push(dest.len());
        let mut next: u8 = self.first;
        for slot in dest.iter_mut() {
            *slot = next;
            next = next.wrapping_add(1);
        }
    }
}

fn host(byte: u8) -> OsRng<Module, Crypto> {
    OsRng::HostRuntime(Module::writing(byte))
}

fn embedded(first: u8) -> OsRng<Module, Crypto> {
    OsRng::EmbeddedRuntime(Crypto::counting_from(first))
}

#[test]
fn host_runtime_fills_thirty_two_bytes() {
    let mut rng = host(0xFF);
    let mut dest = [0u8; 32];
    let filled = rng.fill_chunk(&mut dest);
    assert_eq!(filled, Ok(()));
    assert_eq!(dest, [0xFFu8; 32]);
}

#[test]
fn host_runtime_hands_the_whole_buffer_over() {
    let mut rng = host(0xAB);
    let mut dest = vec![0u8; 1000];
    assert!(rng.fill_chunk(&mut dest).is_ok());
    assert_eq!(dest.len(), 1000);
    assert!(dest.iter().all(|byte| *byte == 0xAB));
    match &rng {
        OsRng::HostRuntime(module) => assert_eq!(*module.lengths.borrow(), vec![1000usize]),
        OsRng::EmbeddedRuntime(_) => panic!("the variant changed"),
    }
}

#[test]
fn embedded_runtime_hands_the_whole_buffer_over() {
    let mut rng = embedded(10);
    let mut dest = vec![0u8; 300];
    assert!(rng.fill_chunk(&mut dest).is_ok());
    assert_eq!(dest.len(), 300);
    for (index, byte) in dest.iter().enumerate() {
        assert_eq!(*byte, ((index + 10) % 256) as u8);
    }
    match &rng {
        OsRng::EmbeddedRuntime(crypto) => assert_eq!(*crypto.lengths.borrow(), vec![300usize]),
        OsRng::HostRuntime(_) => panic!("the variant changed"),
    }
}

#[test]
fn embedded_runtime_fills_a_buffer_of_the_quota() {
    let mut rng = embedded(1);
    let mut dest = vec![0u8; 65536];
    assert!(rng.fill_chunk(&mut dest).is_ok());
    assert_eq!(dest[0], 1);
    assert_eq!(dest[255], 0);
    assert_eq!(dest[65535], 0);
}

#[test]
fn host_runtime_fills_beyond_the_browser_quota() {
    let mut rng = host(0x5A);
    let mut dest = vec![0u8; 65537];
    assert!(rng.fill_chunk(&mut dest).is_ok());
    assert!(dest.iter().all(|byte| *byte == 0x5A));
}

#[test]
fn an_empty_buffer_is_handed_over_too() {
    let mut rng = host(0xFF);
    let mut dest: [u8; 0] = [];
    assert!(rng.fill_chunk(&mut dest).is_ok());
    match &rng {
        OsRng::HostRuntime(module) => assert_eq!(*module.lengths.borrow(), vec![0usize]),
        OsRng::EmbeddedRuntime(_) => panic!("the variant changed"),
    }
}

#[test]
fn every_call_goes_to_the_same_source() {
    let mut rng = embedded(0);
    let mut dest = [0u8; 4];
    for _ in 0..3 {
        assert!(rng.fill_chunk(&mut dest).is_ok());
        assert_eq!(dest, [0u8, 1, 2, 3]);
        assert!(matches!(rng, OsRng::EmbeddedRuntime(_)));
    }
    match &rng {
        OsRng::EmbeddedRuntime(crypto) => assert_eq!(*crypto.lengths.borrow(), vec![4usize; 3]),
        OsRng::HostRuntime(_) => panic!("the variant changed"),
    }
}

#[test]
fn max_chunk_size_of_embedded_runtime_is_the_quota() {
    assert_eq!(embedded(0).max_chunk_size(), 65536);
    assert_eq!(GET_RANDOM_VALUES_QUOTA, 65536);
}

#[test]
fn max_chunk_size_of_host_runtime_is_the_largest_size() {
    assert_eq!(host(0).max_chunk_size(), usize::MAX);
}

#[test]
fn max_chunk_size_does_not_change_with_use() {
    let mut rng = embedded(0);
    let mut dest = [0u8; 16];
    assert_eq!(rng.max_chunk_size(), 65536);
    assert!(rng.fill_chunk(&mut dest).is_ok());
    assert!(rng.fill_chunk(&mut dest).is_ok());
    assert_eq!(rng.max_chunk_size(), 65536);
    let mut rng = host(1);
    assert!(rng.fill_chunk(&mut dest).is_ok());
    assert_eq!(rng.max_chunk_size(), usize::MAX);
}

#[test]
fn max_chunk_size_does_not_depend_on_the_handle() {
    assert_eq!(embedded(1).max_chunk_size(), embedded(2).max_chunk_size());
    assert_eq!(host(1).max_chunk_size(), host(2).max_chunk_size());
}

#[test]
fn method_str_names_the_host_function() {
    assert_eq!(host(0).method_str(), "crypto.randomFillSync");
    assert_eq!(embedded(0).method_str(), "crypto.getRandomValues");
}

#[test]
fn method_str_is_constant_and_not_empty() {
    let mut rng = host(3);
    let before = rng.method_str();
    let mut dest = [0u8; 8];
    assert!(rng.fill_chunk(&mut dest).is_ok());
    assert_eq!(rng.method_str(), before);
    assert_eq!(host(4).method_str(), before);
    assert!(!before.is_empty());
    assert!(!embedded(0).method_str().is_empty());
    assert_eq!(embedded(1).method_str(), embedded(2).method_str());
}

#[test]
fn a_clone_is_bound_to_the_same_kind_of_source() {
    let rng = embedded(9);
    let mut copy = rng.clone();
    assert!(matches!(copy, OsRng::EmbeddedRuntime(_)));
    assert_eq!(copy.max_chunk_size(), rng.max_chunk_size());
    assert_eq!(copy.method_str(), rng.method_str());
    let mut dest = [0u8; 2];
    assert!(copy.fill_chunk(&mut dest).is_ok());
    assert_eq!(dest, [9u8, 10]);
    let copy = host(1).clone();
    assert!(matches!(copy, OsRng::HostRuntime(_)));
}
