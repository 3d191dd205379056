use cdr_codec::records::{SetBoolSrvRequest, VectorClass};

#[test]
fn test_vector_serde() {
    let vec = VectorClass::new(1.0f64.to_bits(), 1.0f64.to_bits(), 1.0f64.to_bits());
    let serialized = vec.serialize();
    let deserialized = VectorClass::deserialize(serialized).unwrap();

    assert_eq!(vec.x, deserialized.x);
    assert_eq!(vec.y, deserialized.y);
    assert_eq!(vec.z, deserialized.z);
}

#[test]
fn test_setbool_serde() {
    let req = SetBoolSrvRequest::new(true);
    let serialized = req.serialize();

    println!("SetBool request serialized: {:?}", serialized);
}
