use glium::uniforms::{EmptyUniforms, UniformsStorage};

#[test]
fn trailing_comma_impl_uniforms() {
    // `uniform!{ a: 5, b: 6, }` builds this list.
    let u = UniformsStorage::new("a", 5).add("b", 6);
    assert_eq!(u.get_name(), "b");
    assert_eq!(*u.get_value(), 6);
    assert_eq!(u.get_rest().get_name(), "a");
    assert_eq!(*u.get_rest().get_value(), 5);
    assert_eq!(*u.get_rest().get_rest(), EmptyUniforms);
}
