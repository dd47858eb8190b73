use openmix::engine_name;

#[test]
fn engine_name_is_openmix_core() {
    assert_eq!(engine_name(), "openmix-core");
}
