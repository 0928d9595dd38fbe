use particles::fixed::Fixed;
use particles::renderer::generate_circle_indices;
use particles::renderer::PipelineBuilder;
use particles::renderer::SamplerBuilder;
use particles::renderer::SamplerParameter;
use particles::scope_guard::ScopeGuard;
use particles::unique_resource::ResourceDeleter;
use particles::unique_resource::UniqueResource;
use std::cell::RefCell;
use std::rc::Rc;

#[derive(Default)]
struct ProgramDeleter {}

impl ResourceDeleter<u32> for ProgramDeleter {
    fn null() -> u32 {
        0
    }

    fn destroy(&mut self, _r: u32) {}
}

struct Recording {
    log: Rc<RefCell<Vec<i32>>>,
}

impl Default for Recording {
    fn default() -> Self {
        Recording {
            log: Rc::new(RefCell::new(Vec::new())),
        }
    }
}

impl ResourceDeleter<i32> for Recording {
    fn null() -> i32 {
        -1
    }

    fn destroy(&mut self, r: i32) {
        self.log.borrow_mut().push(r);
    }
}

#[test]
fn pipeline_builder_keeps_the_last_shaders() {
    let vs = UniqueResource::<u32, ProgramDeleter>::new(3).unwrap();
    let fs = UniqueResource::<u32, ProgramDeleter>::new(4).unwrap();
    let other = UniqueResource::<u32, ProgramDeleter>::new(5).unwrap();
    let mut builder = PipelineBuilder::new();
    assert!(builder.vertex_shader().is_none());
    assert!(builder.fragment_shader().is_none());
    builder.add_vertex_shader(&vs);
    assert_eq!(builder.vertex_shader().unwrap().get(), Some(3));
    assert!(builder.fragment_shader().is_none());
    builder.add_fragment_shader(&fs).add_vertex_shader(&other);
    assert_eq!(builder.vertex_shader().unwrap().get(), Some(5));
    assert_eq!(builder.fragment_shader().unwrap().get(), Some(4));
}

#[test]
fn sampler_builder_lists_what_was_set() {
    let mut builder = SamplerBuilder::new();
    assert_eq!(builder.parameters(), vec![]);
    builder.set_mag_filter(9).set_min_filter(8);
    assert_eq!(
        builder.parameters(),
        vec![(SamplerParameter::MinFilter, 8), (SamplerParameter::MagFilter, 9)]
    );
    builder.set_border_color(Fixed::from_raw(1), Fixed::from_raw(2), Fixed::from_raw(3));
    assert_eq!(
        builder.border_color,
        Some((
            Fixed::from_raw(1),
            Fixed::from_raw(2),
            Fixed::from_raw(3),
            Fixed::from_int(1)
        ))
    );
    builder.wrap_s = Some(1);
    builder.wrap_t = Some(2);
    builder.min_filter = None;
    assert_eq!(
        builder.parameters(),
        vec![
            (SamplerParameter::MagFilter, 9),
            (SamplerParameter::WrapS, 1),
            (SamplerParameter::WrapT, 2)
        ]
    );
}

#[test]
fn circle_indices_fan_out() {
    assert_eq!(generate_circle_indices(0), Vec::<u16>::new());
    assert_eq!(generate_circle_indices(1), vec![0, 1, 2]);
    assert_eq!(generate_circle_indices(3), vec![0, 1, 2, 0, 2, 3, 0, 3, 4]);
    let many = generate_circle_indices(65534);
    assert_eq!(many.len(), 3 * 65534);
    assert_eq!(&many[many.len() - 3..], &[0, 65534, 65535]);
}

#[test]
fn reset_destroys_once() {
    let log = Rc::new(RefCell::new(Vec::new()));
    let mut u = UniqueResource::new_with_deleter(12, Recording { log: log.clone() }).unwrap();
    assert!(u.is_valid());
    u.reset();
    assert!(!u.is_valid());
    assert_eq!(u.get(), None);
    u.reset();
    assert_eq!(*log.borrow(), vec![12]);
    assert!(UniqueResource::new_with_deleter(-1, Recording::default()).is_none());
    assert!(UniqueResource::<i32, Recording>::new(-1).is_none());
    assert!(UniqueResource::<i32, Recording>::new(0).is_some());
}

#[test]
fn scope_guard_hands_its_value_over() {
    let seen = Rc::new(RefCell::new(Vec::new()));
    let sink = seen.clone();
    let mut guard = ScopeGuard::new(5, move |v: i32| sink.borrow_mut().push(v));
    assert_eq!(*guard.get(), 5);
    guard.set(6);
    assert_eq!(*guard.get(), 6);
    assert!(seen.borrow().is_empty());
    guard.release();
    assert_eq!(*seen.borrow(), vec![6]);
}
