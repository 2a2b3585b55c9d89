use ip_juggler::error::SimpleError;
use ip_juggler::error::err;
use ip_juggler::numfmt::cidr_to_dec;
use ip_juggler::numfmt::ipv4_to_dec;
use ip_juggler::numfmt::u32_to_dec;

#[test]
fn decimal_rendering() {
    assert_eq!(u32_to_dec(0), "0");
    assert_eq!(u32_to_dec(7), "7");
    assert_eq!(u32_to_dec(10), "10");
    assert_eq!(u32_to_dec(123), "123");
    assert_eq!(u32_to_dec(4_294_967_295), "4294967295");
}

#[test]
fn dotted_quad_rendering() {
    assert_eq!(ipv4_to_dec(&[10, 0, 0, 50]), "10.0.0.50");
    assert_eq!(ipv4_to_dec(&[255, 255, 255, 255]), "255.255.255.255");
    assert_eq!(ipv4_to_dec(&[0, 0, 0, 0]), "0.0.0.0");
}

#[test]
fn cidr_rendering() {
    assert_eq!(cidr_to_dec(&[10, 0, 0, 50], 24), "10.0.0.50/24");
    assert_eq!(cidr_to_dec(&[192, 168, 1, 1], 32), "192.168.1.1/32");
}

#[test]
fn errors_carry_their_message() {
    let boxed = err("something went wrong".to_string());
    assert_eq!(boxed.message().as_str(), "something went wrong");
    let from: SimpleError = SimpleError::from("from a string".to_string());
    assert_eq!(from.message().as_str(), "from a string");
}
