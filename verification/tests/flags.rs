use kernux::mem::{GFP_ATOMIC, GFP_KERNEL};

#[test]
fn flag_constants_match_the_host_encoding() {
    assert_eq!(GFP_KERNEL, 0xCC0);
    assert_eq!(GFP_ATOMIC, 0x80);
}
