use pamusb::io_error::{IoError, IoErrorKind};
use pamusb::key::{Key, Rng, KEY_LEGNTH};

struct CountingRng {
    next: u8,
}

impl Rng for CountingRng {
    fn getrandom(&mut self, buf: &mut [u8]) -> Result<(), IoError> {
        for b in buf.iter_mut() {
            *b = self.next;
            self.next = self.next.wrapping_add(7);
        }
        Ok(())
    }
}

struct FailingRng;

impl Rng for FailingRng {
    fn getrandom(&mut self, _buf: &mut [u8]) -> Result<(), IoError> {
        Err(IoError::new(IoErrorKind::WouldBlock, "no entropy".to_string()))
    }
}

fn key_with(f: impl Fn(usize) -> u8) -> Key {
    let mut bytes = [0u8; KEY_LEGNTH];
    for (i, b) in bytes.iter_mut().enumerate() {
        *b = f(i);
    }
    Key::from_bytes(bytes)
}

#[test]
fn zeroes_is_all_zero() {
    let k = Key::zeroes();
    assert_eq!(k.as_bytes().len(), 1024);
    assert!(k.as_bytes().iter().all(|b| *b == 0));
}

#[test]
fn check_equal_and_different_keys() {
    let a = key_with(|i| (i % 251) as u8);
    let b = key_with(|i| (i % 251) as u8);
    assert!(Key::check(&a, &b));
    assert!(Key::check(&Key::zeroes(), &Key::zeroes()));
    let c = key_with(|i| if i == 1023 { 1 } else { (i % 251) as u8 });
    assert!(!Key::check(&a, &c));
}

#[test]
fn xor_twice_restores_and_self_xor_is_zero() {
    let original = key_with(|i| (i * 13 % 256) as u8);
    let mask = key_with(|i| (i * 7 % 256) as u8);
    let mut k = key_with(|i| (i * 13 % 256) as u8);
    k.xor(&mask);
    assert_eq!(k.as_bytes()[1], 13 ^ 7);
    assert!(!Key::check(&k, &original));
    k.xor(&mask);
    assert!(Key::check(&k, &original));
    let mut s = key_with(|i| (i * 13 % 256) as u8);
    let same = key_with(|i| (i * 13 % 256) as u8);
    s.xor(&same);
    assert!(Key::check(&s, &Key::zeroes()));
    let mut z = key_with(|i| (i % 3) as u8);
    z.xor(&Key::zeroes());
    assert!(Key::check(&z, &key_with(|i| (i % 3) as u8)));
}

#[test]
fn regenerate_makes_equal_fresh_keys() {
    let mut system = key_with(|_| 1);
    let mut device = key_with(|_| 2);
    let mut rng = CountingRng { next: 3 };
    assert!(Key::regenerate_key_pair(&mut system, &mut device, &mut rng).is_ok());
    assert!(Key::check(&system, &device));
    assert_eq!(system.as_bytes()[0], 3);
    assert_eq!(system.as_bytes()[1], 10);
    assert_eq!(device.as_bytes()[1], 10);
}

#[test]
fn regenerate_failure_leaves_device_key() {
    let mut system = key_with(|_| 1);
    let mut device = key_with(|_| 2);
    let r = Key::regenerate_key_pair(&mut system, &mut device, &mut FailingRng);
    let e = r.unwrap_err();
    assert_eq!(e.kind, IoErrorKind::WouldBlock);
    assert!(Key::check(&device, &key_with(|_| 2)));
}

#[test]
fn zeroize_clears_key() {
    let mut k = key_with(|i| (i % 200 + 1) as u8);
    k.zeroize();
    assert!(Key::check(&k, &Key::zeroes()));
}

#[test]
fn finish_key_pair_copies_on_success_only() {
    let system = key_with(|i| (i % 17) as u8);
    let mut device = key_with(|_| 5);
    assert!(Key::finish_key_pair(&system, &mut device, Ok(())).is_ok());
    assert!(Key::check(&device, &system));
    let mut other = key_with(|_| 6);
    let e = Key::finish_key_pair(
        &system,
        &mut other,
        Err(IoError::new(IoErrorKind::Interrupted, "stop".to_string())),
    )
    .unwrap_err();
    assert_eq!(e.kind, IoErrorKind::Interrupted);
    assert_eq!(e.message, "stop");
    assert!(Key::check(&other, &key_with(|_| 6)));
}
