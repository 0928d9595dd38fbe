use particles::unique_resource::ResourceDeleter;
use particles::unique_resource::UniqueResource;

#[derive(Default)]
struct CountingDeleter {
    destroyed: Vec<u32>,
}

impl ResourceDeleter<u32> for CountingDeleter {
    fn null() -> u32 {
        0
    }

    fn destroy(&mut self, r: u32) {
        self.destroyed.push(r);
    }
}

#[test]
fn null_handle_is_refused() {
    assert!(UniqueResource::<u32, CountingDeleter>::new(0).is_none());
}

#[test]
fn valid_handle_is_held() {
    let u = UniqueResource::<u32, CountingDeleter>::new(7).unwrap();
    assert!(u.is_valid());
    assert_eq!(u.get(), Some(7));
}

#[test]
fn default_holds_nothing() {
    let u = UniqueResource::<u32, CountingDeleter>::default();
    assert!(!u.is_valid());
    assert_eq!(u.get(), None);
}
